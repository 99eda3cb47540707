//! Slipway debug evidence: frame identities, presented screenshot admission,
//! debug command and reply products, visible frame timing, iced presentation
//! decisions, CPU debug renderer bookkeeping and the debug MCP server.
#![allow(unused_imports)]

pub mod frame;
pub mod text;
pub mod evidence;
pub mod screenshot;
pub mod input;
pub mod command;
pub mod reply;
pub mod sort;
pub mod timing;
pub mod mcp;
pub mod iced;
pub mod capture;
pub mod json;
pub mod rpc;
pub mod params;
pub mod event_params;
pub mod payload;
pub mod summary;
pub mod products;
pub mod tool_params;
pub mod json_text;
pub mod server;
pub mod schema;
pub mod dispatch;
pub mod renderer;
pub mod bridge;
pub mod begin;
pub mod transport;
pub mod trace;
pub mod native;
pub mod report;
