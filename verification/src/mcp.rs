use vstd::prelude::*;

verus! {

/// Which debug tools a server admits.
#[derive(Clone, Copy, Debug, PartialEq, Eq, Structural)]
pub struct DebugMcpConfig {
    pub allow_status: bool,
    pub allow_probe: bool,
    pub allow_render: bool,
    pub allow_screenshot: bool,
    pub allow_control: bool,
    pub allow_resize: bool,
}

impl DebugMcpConfig {
    /// A configuration that admits no debug tool.
    pub fn no_debug() -> (r: Self)
        ensures
            !r.allow_status && !r.allow_probe && !r.allow_render && !r.allow_screenshot
                && !r.allow_control && !r.allow_resize,
    {
        DebugMcpConfig {
            allow_status: false,
            allow_probe: false,
            allow_render: false,
            allow_screenshot: false,
            allow_control: false,
            allow_resize: false,
        }
    }

    /// A configuration that admits every debug tool.
    pub fn admitted() -> (r: Self)
        ensures
            r.allow_status && r.allow_probe && r.allow_render && r.allow_screenshot
                && r.allow_control && r.allow_resize,
    {
        DebugMcpConfig {
            allow_status: true,
            allow_probe: true,
            allow_render: true,
            allow_screenshot: true,
            allow_control: true,
            allow_resize: true,
        }
    }
}

impl Default for DebugMcpConfig {
    fn default() -> (r: Self)
        ensures
            r == DebugMcpConfig::no_debug_spec(),
    {
        DebugMcpConfig::no_debug()
    }
}

impl DebugMcpConfig {
    pub open spec fn no_debug_spec() -> Self {
        DebugMcpConfig {
            allow_status: false,
            allow_probe: false,
            allow_render: false,
            allow_screenshot: false,
            allow_control: false,
            allow_resize: false,
        }
    }
}

/// A debug MCP server answering JSON-RPC requests under one configuration.
#[derive(Clone, Copy, Debug, PartialEq, Eq)]
pub struct DebugMcpServer {
    config: DebugMcpConfig,
}

impl DebugMcpServer {
    pub closed spec fn config_view(&self) -> DebugMcpConfig {
        self.config
    }

    pub fn new(config: DebugMcpConfig) -> (r: Self)
        ensures
            r.config_view() == config,
    {
        DebugMcpServer { config }
    }

    /// Servers with the same configuration are the same server: a server holds
    /// nothing but its configuration.
    pub proof fn lemma_server_determined_by_config(a: DebugMcpServer, b: DebugMcpServer)
        requires
            a.config_view() == b.config_view(),
        ensures
            a == b,
    {
    }

    pub fn config(&self) -> (r: &DebugMcpConfig)
        ensures
            *r == self.config_view(),
    {
        &self.config
    }
}

} // verus!
