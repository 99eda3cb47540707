//! The JSON of debug reply products and of the tool call payloads that carry them.
use vstd::prelude::*;
use crate::evidence::{Diagnostic, EvidenceSource};
use crate::frame::FrameIdentity;
use crate::input::TextCompositionEvent;
use crate::json::{
    map_array, opt_str_tree, opt_string_value, string_value, strings_tree, tree, JsonTree,
    JsonValue, ObjectBuilder,
};
use crate::payload::{
    admission_name, alpha_name, bridge_method_name, capture_path_name, composition_phase_name,
    diagnostics_summary, diagnostics_tree, evidence_source_summary, frame_json, frame_tree,
    method_name, opt_frame_json, opt_frame_tree, opt_range_json, opt_range_tree, opt_slot_json,
    opt_slot_tree, phase_name, presented_alpha_name, presented_capture_path_name,
    presented_surface_format_name, presented_transfer_name, rect_json, rect_tree,
    screenshot_admission_name, screenshot_selector_json, selector_tree, source_tree,
    surface_format_name, transfer_name,
};
use crate::reply::{
    CompositionPhaseProvenance, DebugCompositionCommitMutation, DebugCompositionIngressObservation,
    DebugCompositionPhaseTrace, DebugCompositionTrace, DebugReply, DebugReplyProduct,
    DispatchGraph, DispatchGraphChannel, DispatchGraphEdge, DispatchGraphEdgeKind,
    DispatchGraphNode, DispatchGraphNodeKind, McpProbeMethod, ProbeProduct, RenderEvidence,
    RenderProduct, RenderRefusal,
};
use crate::screenshot::{
    admission_of, correlation_of, PresentedPixels, PresentedScreenshotProduct,
    PresentedScreenshotRefusal, PresentedScreenshotSelector,
};
use crate::summary::{
    change_evidence_summary, change_tree, control_trace_summary, control_trace_tree,
    dispatch_evidence_summary, dispatch_evidence_tree, failure_summary, failure_tree,
    generated_event_summary, generated_event_tree, observation_tree,
    opt_dispatch_evidence_json, opt_dispatch_evidence_tree, opt_dispatch_identity_json,
    opt_dispatch_identity_tree, opt_result_identity_json, opt_result_identity_tree,
    result_identity_summary, result_identity_tree, state_observation_summary, status_summary,
    status_tree,
};
use crate::reply::{ChangeEvidence, EmittedMessage, StateObservation};

verus! {

pub open spec fn ingress_tree(o: DebugCompositionIngressObservation) -> JsonTree {
    match o {
        DebugCompositionIngressObservation::IcedQueueSlice { sequence_index } => JsonTree::Object(Seq::empty().push(("kind"@, JsonTree::Str("iced_queue_slice"@))).push(("sequence_index"@, JsonTree::UInt(sequence_index as u64)))),
        DebugCompositionIngressObservation::EguiRawInputSpan { event_index } => JsonTree::Object(Seq::empty().push(("kind"@, JsonTree::Str("egui_raw_input_span"@))).push(("event_index"@, JsonTree::UInt(event_index as u64)))),
        DebugCompositionIngressObservation::Derived { from_sequence_index } => JsonTree::Object(Seq::empty().push(("kind"@, JsonTree::Str("derived"@))).push(("from_sequence_index"@, JsonTree::UInt(from_sequence_index as u64)))),
    }
}

pub fn composition_ingress_summary(o: DebugCompositionIngressObservation) -> (r: JsonValue)
    ensures
        tree(r) == ingress_tree(o),
{
    let mut b = ObjectBuilder::new();
    match o {
        DebugCompositionIngressObservation::IcedQueueSlice { sequence_index } => {
            b.put("kind", string_value("iced_queue_slice"));
            b.put("sequence_index", JsonValue::UInt(sequence_index as u64));
        },
        DebugCompositionIngressObservation::EguiRawInputSpan { event_index } => {
            b.put("kind", string_value("egui_raw_input_span"));
            b.put("event_index", JsonValue::UInt(event_index as u64));
        },
        DebugCompositionIngressObservation::Derived { from_sequence_index } => {
            b.put("kind", string_value("derived"));
            b.put("from_sequence_index", JsonValue::UInt(from_sequence_index as u64));
        },
    }
    b.build()
}

pub open spec fn provenance_tree(p: CompositionPhaseProvenance) -> JsonTree {
    match p {
        CompositionPhaseProvenance::Native => JsonTree::Object(Seq::empty().push(("kind"@, JsonTree::Str("native"@)))),
        CompositionPhaseProvenance::Derived { from } => JsonTree::Object(Seq::empty().push(("kind"@, JsonTree::Str("derived"@))).push(("from"@, JsonTree::Str(phase_name(from))))),
    }
}

fn provenance_json(p: CompositionPhaseProvenance) -> (r: JsonValue)
    ensures
        tree(r) == provenance_tree(p),
{
    let mut b = ObjectBuilder::new();
    match p {
        CompositionPhaseProvenance::Native => {
            b.put("kind", string_value("native"));
        },
        CompositionPhaseProvenance::Derived { from } => {
            b.put("kind", string_value("derived"));
            b.put("from", string_value(composition_phase_name(from)));
        },
    }
    b.build()
}

pub open spec fn composition_event_tree(e: TextCompositionEvent) -> JsonTree {
    JsonTree::Object(Seq::empty().push(("target"@, JsonTree::Str(e.target@))).push(("target_slot"@, opt_slot_tree(e.target_slot))).push(("phase"@, JsonTree::Str(phase_name(e.phase)))).push(("preedit_text"@, JsonTree::Str(e.preedit_text@))).push(("cursor_range"@, opt_range_tree(e.cursor_range))))
}

fn composition_event_json(e: &TextCompositionEvent) -> (r: JsonValue)
    ensures
        tree(r) == composition_event_tree(*e),
{
    let mut b = ObjectBuilder::new();
    b.put("target", string_value(e.target.as_str()));
    b.put("target_slot", opt_slot_json(&e.target_slot));
    b.put("phase", string_value(composition_phase_name(e.phase)));
    b.put("preedit_text", string_value(e.preedit_text.as_str()));
    b.put("cursor_range", opt_range_json(&e.cursor_range));
    b.build()
}

pub open spec fn phase_trace_tree(p: DebugCompositionPhaseTrace) -> JsonTree {
    JsonTree::Object(Seq::empty().push(("phase"@, JsonTree::Str(phase_name(p.phase)))).push(("backend_event"@, JsonTree::Str(p.backend_event@))).push(("provenance"@, provenance_tree(p.provenance))).push(("event"@, composition_event_tree(p.event))).push(("ingress_observation"@, ingress_tree(p.ingress_observation))).push(("dispatch_evidence"@, dispatch_evidence_tree(p.dispatch_evidence))).push(("app_handled"@, JsonTree::Bool(p.app_handled))).push(("result_identity"@, opt_result_identity_tree(p.result_identity))))
}

fn phase_trace_json(p: &DebugCompositionPhaseTrace) -> (r: JsonValue)
    ensures
        tree(r) == phase_trace_tree(*p),
{
    let mut b = ObjectBuilder::new();
    b.put("phase", string_value(composition_phase_name(p.phase)));
    b.put("backend_event", string_value(p.backend_event.as_str()));
    b.put("provenance", provenance_json(p.provenance));
    b.put("event", composition_event_json(&p.event));
    b.put("ingress_observation", composition_ingress_summary(p.ingress_observation));
    b.put("dispatch_evidence", dispatch_evidence_summary(&p.dispatch_evidence));
    b.put("app_handled", JsonValue::Bool(p.app_handled));
    b.put("result_identity", opt_result_identity_json(&p.result_identity));
    b.build()
}

pub open spec fn mutation_tree(m: Option<DebugCompositionCommitMutation>) -> JsonTree {
    match m {
        Some(x) => JsonTree::Object(Seq::empty().push(("trace"@, control_trace_tree(x.trace))).push(("before"@, JsonTree::Str(x.before@))).push(("after"@, JsonTree::Str(x.after@)))),
        None => JsonTree::Null,
    }
}

fn mutation_json(m: &Option<DebugCompositionCommitMutation>) -> (r: JsonValue)
    ensures
        tree(r) == mutation_tree(*m),
{
    match m {
        Some(x) => {
            let mut b = ObjectBuilder::new();
            b.put("trace", control_trace_summary(&x.trace));
            b.put("before", string_value(x.before.as_str()));
            b.put("after", string_value(x.after.as_str()));
            b.build()
        },
        None => JsonValue::Null,
    }
}

pub open spec fn opt_failure_tree(f: Option<crate::evidence::DebugFailure>) -> JsonTree {
    match f {
        Some(x) => failure_tree(x),
        None => JsonTree::Null,
    }
}

pub open spec fn composition_trace_tree(t: DebugCompositionTrace) -> JsonTree {
    JsonTree::Object(Seq::empty().push(("request_id"@, JsonTree::Str(t.request_id@))).push(("frame"@, frame_tree(t.frame))).push(("backend_id"@, JsonTree::Str(t.backend_id@))).push(("target"@, JsonTree::Str(t.target@))).push(("selected_region"@, JsonTree::Str(t.selected_region@))).push(("focused_before"@, JsonTree::Bool(t.focused_before))).push(("focused_after"@, JsonTree::Bool(t.focused_after))).push(("phases"@, JsonTree::Array(t.phases@.map_values(|p: DebugCompositionPhaseTrace| phase_trace_tree(p))))).push(("commit_mutation"@, mutation_tree(t.commit_mutation))).push(("completed"@, JsonTree::Bool(t.completed))).push(("failure"@, opt_failure_tree(t.failure))))
}

/// A text composition trace: focus, each phase with its evidence, the commit
/// mutation, completion and failure.
pub fn composition_trace_summary(t: &DebugCompositionTrace) -> (r: JsonValue)
    ensures
        tree(r) == composition_trace_tree(*t),
{
    let mut b = ObjectBuilder::new();
    b.put("request_id", string_value(t.request_id.as_str()));
    b.put("frame", frame_json(&t.frame));
    b.put("backend_id", string_value(t.backend_id.as_str()));
    b.put("target", string_value(t.target.as_str()));
    b.put("selected_region", string_value(t.selected_region.as_str()));
    b.put("focused_before", JsonValue::Bool(t.focused_before));
    b.put("focused_after", JsonValue::Bool(t.focused_after));
    b.put("phases", map_array(&t.phases, phase_trace_json, Ghost(|p: DebugCompositionPhaseTrace| phase_trace_tree(p))));
    b.put("commit_mutation", mutation_json(&t.commit_mutation));
    b.put("completed", JsonValue::Bool(t.completed));
    b.put("failure", match &t.failure {
        Some(f) => failure_summary(f),
        None => JsonValue::Null,
    });
    b.build()
}

// Dispatch graphs.
pub open spec fn node_kind_name(k: DispatchGraphNodeKind) -> Seq<char> {
    match k {
        DispatchGraphNodeKind::Hit => "hit"@,
        DispatchGraphNodeKind::Focus => "focus"@,
        DispatchGraphNodeKind::Scroll => "scroll"@,
        DispatchGraphNodeKind::Occlusion => "occlusion"@,
    }
}

pub fn dispatch_graph_node_kind_name(k: DispatchGraphNodeKind) -> (r: &'static str)
    ensures
        r@ == node_kind_name(k),
{
    match k {
        DispatchGraphNodeKind::Hit => "hit",
        DispatchGraphNodeKind::Focus => "focus",
        DispatchGraphNodeKind::Scroll => "scroll",
        DispatchGraphNodeKind::Occlusion => "occlusion",
    }
}

pub open spec fn edge_kind_name(k: DispatchGraphEdgeKind) -> Seq<char> {
    match k {
        DispatchGraphEdgeKind::HitOrder => "hit_order"@,
        DispatchGraphEdgeKind::Occlusion => "occlusion"@,
        DispatchGraphEdgeKind::Capture => "capture"@,
        DispatchGraphEdgeKind::Chaining => "chaining"@,
        DispatchGraphEdgeKind::FocusRoute => "focus_route"@,
    }
}

pub fn dispatch_graph_edge_kind_name(k: DispatchGraphEdgeKind) -> (r: &'static str)
    ensures
        r@ == edge_kind_name(k),
{
    match k {
        DispatchGraphEdgeKind::HitOrder => "hit_order",
        DispatchGraphEdgeKind::Occlusion => "occlusion",
        DispatchGraphEdgeKind::Capture => "capture",
        DispatchGraphEdgeKind::Chaining => "chaining",
        DispatchGraphEdgeKind::FocusRoute => "focus_route",
    }
}

pub open spec fn channel_name(c: DispatchGraphChannel) -> Seq<char> {
    match c {
        DispatchGraphChannel::Pointer => "pointer"@,
        DispatchGraphChannel::Wheel => "wheel"@,
        DispatchGraphChannel::FocusRouted => "focus_routed"@,
    }
}

pub fn dispatch_graph_channel_name(c: DispatchGraphChannel) -> (r: &'static str)
    ensures
        r@ == channel_name(c),
{
    match c {
        DispatchGraphChannel::Pointer => "pointer",
        DispatchGraphChannel::Wheel => "wheel",
        DispatchGraphChannel::FocusRouted => "focus_routed",
    }
}

pub open spec fn opt_bool_tree(b: Option<bool>) -> JsonTree {
    match b {
        Some(x) => JsonTree::Bool(x),
        None => JsonTree::Null,
    }
}

fn opt_bool_json(b: Option<bool>) -> (r: JsonValue)
    ensures
        tree(r) == opt_bool_tree(b),
{
    match b {
        Some(x) => JsonValue::Bool(x),
        None => JsonValue::Null,
    }
}

pub open spec fn node_tree(n: DispatchGraphNode) -> JsonTree {
    JsonTree::Object(Seq::empty().push(("id"@, JsonTree::Str(n.id@))).push(("kind"@, JsonTree::Str(node_kind_name(n.kind)))).push(("target"@, JsonTree::Str(n.target@))).push(("address"@, opt_slot_tree(n.address))).push(("bounds"@, rect_tree(n.bounds))).push(("order"@, JsonTree::Object(Seq::empty().push(("z_index"@, JsonTree::Int(n.order.z_index as i64))).push(("paint_order"@, JsonTree::UInt(n.order.paint_order as u64))).push(("traversal_order"@, JsonTree::UInt(n.order.traversal_order as u64)))))).push(("enabled"@, JsonTree::Bool(n.enabled))).push(("capture"@, opt_str_tree(n.capture))).push(("consumes_wheel"@, opt_bool_tree(n.consumes_wheel))).push(("blocks_pointer"@, opt_bool_tree(n.blocks_pointer))).push(("blocks_wheel"@, opt_bool_tree(n.blocks_wheel))))
}

pub fn dispatch_graph_node_summary(n: &DispatchGraphNode) -> (r: JsonValue)
    ensures
        tree(r) == node_tree(*n),
{
    let mut order = ObjectBuilder::new();
    order.put("z_index", JsonValue::Int(n.order.z_index as i64));
    order.put("paint_order", JsonValue::UInt(n.order.paint_order as u64));
    order.put("traversal_order", JsonValue::UInt(n.order.traversal_order as u64));
    let mut b = ObjectBuilder::new();
    b.put("id", string_value(n.id.as_str()));
    b.put("kind", string_value(dispatch_graph_node_kind_name(n.kind)));
    b.put("target", string_value(n.target.as_str()));
    b.put("address", opt_slot_json(&n.address));
    b.put("bounds", rect_json(&n.bounds));
    b.put("order", order.build());
    b.put("enabled", JsonValue::Bool(n.enabled));
    b.put("capture", opt_string_value(&n.capture));
    b.put("consumes_wheel", opt_bool_json(n.consumes_wheel));
    b.put("blocks_pointer", opt_bool_json(n.blocks_pointer));
    b.put("blocks_wheel", opt_bool_json(n.blocks_wheel));
    b.build()
}

pub open spec fn edge_tree(e: DispatchGraphEdge) -> JsonTree {
    JsonTree::Object(Seq::empty().push(("kind"@, JsonTree::Str(edge_kind_name(e.kind)))).push(("channel"@, JsonTree::Str(channel_name(e.channel)))).push(("from"@, JsonTree::Str(e.from@))).push(("to"@, JsonTree::Str(e.to@))))
}

pub fn dispatch_graph_edge_summary(e: &DispatchGraphEdge) -> (r: JsonValue)
    ensures
        tree(r) == edge_tree(*e),
{
    let mut b = ObjectBuilder::new();
    b.put("kind", string_value(dispatch_graph_edge_kind_name(e.kind)));
    b.put("channel", string_value(dispatch_graph_channel_name(e.channel)));
    b.put("from", string_value(e.from.as_str()));
    b.put("to", string_value(e.to.as_str()));
    b.build()
}

pub open spec fn graph_tree(g: DispatchGraph) -> JsonTree {
    JsonTree::Object(Seq::empty().push(("target"@, JsonTree::Str(g.target@))).push(("nodes"@, JsonTree::Array(g.nodes@.map_values(|n: DispatchGraphNode| node_tree(n))))).push(("edges"@, JsonTree::Array(g.edges@.map_values(|e: DispatchGraphEdge| edge_tree(e))))))
}

pub fn dispatch_graph_summary(g: &DispatchGraph) -> (r: JsonValue)
    ensures
        tree(r) == graph_tree(*g),
{
    let mut b = ObjectBuilder::new();
    b.put("target", string_value(g.target.as_str()));
    b.put("nodes", map_array(&g.nodes, dispatch_graph_node_summary, Ghost(|n: DispatchGraphNode| node_tree(n))));
    b.put("edges", map_array(&g.edges, dispatch_graph_edge_summary, Ghost(|e: DispatchGraphEdge| edge_tree(e))));
    b.build()
}


pub open spec fn opt_u32_tree(v: Option<u32>) -> JsonTree {
    match v {
        Some(x) => JsonTree::UInt(x as u64),
        None => JsonTree::Null,
    }
}

fn opt_u32_json(v: Option<u32>) -> (r: JsonValue)
    ensures
        tree(r) == opt_u32_tree(v),
{
    match v {
        Some(x) => JsonValue::UInt(x as u64),
        None => JsonValue::Null,
    }
}

pub open spec fn emitted_probe_tree(m: EmittedMessage) -> JsonTree {
    JsonTree::Object(Seq::empty().push(("target"@, JsonTree::Str(m.target@))).push(("name"@, JsonTree::Str(m.name@))))
}

fn emitted_probe_json(m: &EmittedMessage) -> (r: JsonValue)
    ensures
        tree(r) == emitted_probe_tree(*m),
{
    let mut b = ObjectBuilder::new();
    b.put("target", string_value(m.target.as_str()));
    b.put("name", string_value(m.name.as_str()));
    b.build()
}

pub open spec fn probe_tree(p: ProbeProduct) -> JsonTree {
    match p {
        ProbeProduct::Event {
            routed_target,
            event,
            dispatch_evidence,
            dispatch_identity,
            handled,
            revision_before,
            revision_after,
            emitted_messages,
            local_state,
            changes,
            result_identity,
            diagnostics,
        } => JsonTree::Object(Seq::empty().push(("kind"@, JsonTree::Str("event"@))).push(("routed_target"@, JsonTree::Str(routed_target@))).push(("event"@, generated_event_tree(event))).push(("dispatch_evidence"@, opt_dispatch_evidence_tree(dispatch_evidence))).push(("dispatch_identity"@, opt_dispatch_identity_tree(dispatch_identity))).push(("result_identity"@, result_identity_tree(result_identity))).push(("handled"@, JsonTree::Bool(handled))).push(("revision_before"@, JsonTree::UInt(revision_before))).push(("revision_after"@, JsonTree::UInt(revision_after))).push(("emitted_messages"@, JsonTree::Array(emitted_messages@.map_values(|m: EmittedMessage| emitted_probe_tree(m))))).push(("local_state"@, JsonTree::Array(local_state@.map_values(|o: StateObservation| observation_tree(o))))).push(("changes"@, JsonTree::Array(changes@.map_values(|c: ChangeEvidence| change_tree(c))))).push(("diagnostics"@, diagnostics_tree(diagnostics@)))),
        ProbeProduct::Diagnostic(d) => JsonTree::Object(Seq::empty().push(("kind"@, JsonTree::Str("diagnostic"@))).push(("diagnostic"@, crate::payload::diagnostic_tree(d)))),
        ProbeProduct::RenderEvidence(e) => JsonTree::Object(Seq::empty().push(("kind"@, JsonTree::Str("render_evidence"@))).push(("frame"@, frame_tree(e.frame))).push(("source"@, source_tree(e.source))).push(("artifact_ref"@, opt_str_tree(e.artifact_ref))).push(("artifact_path"@, opt_str_tree(e.artifact_path))).push(("pixel_hash"@, opt_str_tree(e.pixel_hash))).push(("width"@, opt_u32_tree(e.width))).push(("height"@, opt_u32_tree(e.height)))),
        ProbeProduct::RenderPacket(packet) => JsonTree::Object(Seq::empty().push(("kind"@, JsonTree::Str("render_packet"@))).push(("target"@, JsonTree::Str(packet.target@))).push(("frame"@, frame_tree(packet.frame))).push(("paint_ops"@, JsonTree::UInt(packet.paint_ops as u64))).push(("diagnostics"@, diagnostics_tree(packet.diagnostics@)))),
        ProbeProduct::ViewDefinition { target, frame, hit_regions, focus_regions, scroll_regions, diagnostics } => JsonTree::Object(Seq::empty().push(("kind"@, JsonTree::Str("view_definition"@))).push(("target"@, JsonTree::Str(target@))).push(("frame"@, frame_tree(frame))).push(("hit_regions"@, JsonTree::UInt(hit_regions as u64))).push(("focus_regions"@, JsonTree::UInt(focus_regions as u64))).push(("scroll_regions"@, JsonTree::UInt(scroll_regions as u64))).push(("diagnostics"@, diagnostics_tree(diagnostics@)))),
        ProbeProduct::State { target, observations } => JsonTree::Object(Seq::empty().push(("kind"@, JsonTree::Str("state"@))).push(("target"@, JsonTree::Str(target@))).push(("observations"@, JsonTree::Array(observations@.map_values(|o: StateObservation| observation_tree(o)))))),
        ProbeProduct::Topology { root, traversal_count } => JsonTree::Object(Seq::empty().push(("kind"@, JsonTree::Str("topology"@))).push(("root"@, JsonTree::Str(root@))).push(("traversal_count"@, JsonTree::UInt(traversal_count as u64)))),
        ProbeProduct::Change { target, changes } => JsonTree::Object(Seq::empty().push(("kind"@, JsonTree::Str("change"@))).push(("target"@, JsonTree::Str(target@))).push(("changes"@, JsonTree::Array(changes@.map_values(|c: ChangeEvidence| change_tree(c)))))),
        ProbeProduct::Paint { target, ops } => JsonTree::Object(Seq::empty().push(("kind"@, JsonTree::Str("paint"@))).push(("target"@, JsonTree::Str(target@))).push(("ops"@, JsonTree::UInt(ops as u64)))),
        ProbeProduct::Semantics { root, nodes } => JsonTree::Object(Seq::empty().push(("kind"@, JsonTree::Str("semantics"@))).push(("root"@, JsonTree::Str(root@))).push(("nodes"@, JsonTree::UInt(nodes as u64)))),
        ProbeProduct::Surface { target, surfaces } => JsonTree::Object(Seq::empty().push(("kind"@, JsonTree::Str("surface"@))).push(("target"@, JsonTree::Str(target@))).push(("surfaces"@, JsonTree::UInt(surfaces as u64)))),
        ProbeProduct::LayoutIntent { target, has_intrinsic_size, has_size_policy, has_overflow_policy, has_scroll_policy } => JsonTree::Object(Seq::empty().push(("kind"@, JsonTree::Str("layout_intent"@))).push(("target"@, JsonTree::Str(target@))).push(("has_intrinsic_size"@, JsonTree::Bool(has_intrinsic_size))).push(("has_size_policy"@, JsonTree::Bool(has_size_policy))).push(("has_overflow_policy"@, JsonTree::Bool(has_overflow_policy))).push(("has_scroll_policy"@, JsonTree::Bool(has_scroll_policy)))),
        ProbeProduct::DispatchGraph { target, frame, graph } => JsonTree::Object(Seq::empty().push(("kind"@, JsonTree::Str("dispatch_graph"@))).push(("target"@, JsonTree::Str(target@))).push(("frame"@, frame_tree(frame))).push(("graph"@, graph_tree(graph)))),
    }
}

/// The summary of one probe product, tagged with its kind.
pub fn probe_product_summary(p: &ProbeProduct) -> (r: JsonValue)
    ensures
        tree(r) == probe_tree(*p),
{
    let mut b = ObjectBuilder::new();
    match p {
        ProbeProduct::Event {
            routed_target,
            event,
            dispatch_evidence,
            dispatch_identity,
            handled,
            revision_before,
            revision_after,
            emitted_messages,
            local_state,
            changes,
            result_identity,
            diagnostics,
        } => {
            b.put("kind", string_value("event"));
            b.put("routed_target", string_value(routed_target.as_str()));
            b.put("event", generated_event_summary(event));
            b.put("dispatch_evidence", opt_dispatch_evidence_json(dispatch_evidence));
            b.put("dispatch_identity", opt_dispatch_identity_json(dispatch_identity));
            b.put("result_identity", result_identity_summary(result_identity));
            b.put("handled", JsonValue::Bool(*handled));
            b.put("revision_before", JsonValue::UInt(*revision_before));
            b.put("revision_after", JsonValue::UInt(*revision_after));
            b.put("emitted_messages", map_array(emitted_messages, emitted_probe_json, Ghost(|m: EmittedMessage| emitted_probe_tree(m))));
            b.put("local_state", map_array(local_state, state_observation_summary, Ghost(|o: StateObservation| observation_tree(o))));
            b.put("changes", map_array(changes, change_evidence_summary, Ghost(|c: ChangeEvidence| change_tree(c))));
            b.put("diagnostics", diagnostics_summary(diagnostics));
        },
        ProbeProduct::Diagnostic(d) => {
            b.put("kind", string_value("diagnostic"));
            b.put("diagnostic", crate::payload::diagnostic_summary(d));
        },
        ProbeProduct::RenderEvidence(e) => {
            b.put("kind", string_value("render_evidence"));
            b.put("frame", frame_json(&e.frame));
            b.put("source", evidence_source_summary(&e.source));
            b.put("artifact_ref", opt_string_value(&e.artifact_ref));
            b.put("artifact_path", opt_string_value(&e.artifact_path));
            b.put("pixel_hash", opt_string_value(&e.pixel_hash));
            b.put("width", opt_u32_json(e.width));
            b.put("height", opt_u32_json(e.height));
        },
        ProbeProduct::RenderPacket(packet) => {
            b.put("kind", string_value("render_packet"));
            b.put("target", string_value(packet.target.as_str()));
            b.put("frame", frame_json(&packet.frame));
            b.put("paint_ops", JsonValue::UInt(packet.paint_ops as u64));
            b.put("diagnostics", diagnostics_summary(&packet.diagnostics));
        },
        ProbeProduct::ViewDefinition { target, frame, hit_regions, focus_regions, scroll_regions, diagnostics } => {
            b.put("kind", string_value("view_definition"));
            b.put("target", string_value(target.as_str()));
            b.put("frame", frame_json(frame));
            b.put("hit_regions", JsonValue::UInt(*hit_regions as u64));
            b.put("focus_regions", JsonValue::UInt(*focus_regions as u64));
            b.put("scroll_regions", JsonValue::UInt(*scroll_regions as u64));
            b.put("diagnostics", diagnostics_summary(diagnostics));
        },
        ProbeProduct::State { target, observations } => {
            b.put("kind", string_value("state"));
            b.put("target", string_value(target.as_str()));
            b.put("observations", map_array(observations, state_observation_summary, Ghost(|o: StateObservation| observation_tree(o))));
        },
        ProbeProduct::Topology { root, traversal_count } => {
            b.put("kind", string_value("topology"));
            b.put("root", string_value(root.as_str()));
            b.put("traversal_count", JsonValue::UInt(*traversal_count as u64));
        },
        ProbeProduct::Change { target, changes } => {
            b.put("kind", string_value("change"));
            b.put("target", string_value(target.as_str()));
            b.put("changes", map_array(changes, change_evidence_summary, Ghost(|c: ChangeEvidence| change_tree(c))));
        },
        ProbeProduct::Paint { target, ops } => {
            b.put("kind", string_value("paint"));
            b.put("target", string_value(target.as_str()));
            b.put("ops", JsonValue::UInt(*ops as u64));
        },
        ProbeProduct::Semantics { root, nodes } => {
            b.put("kind", string_value("semantics"));
            b.put("root", string_value(root.as_str()));
            b.put("nodes", JsonValue::UInt(*nodes as u64));
        },
        ProbeProduct::Surface { target, surfaces } => {
            b.put("kind", string_value("surface"));
            b.put("target", string_value(target.as_str()));
            b.put("surfaces", JsonValue::UInt(*surfaces as u64));
        },
        ProbeProduct::LayoutIntent { target, has_intrinsic_size, has_size_policy, has_overflow_policy, has_scroll_policy } => {
            b.put("kind", string_value("layout_intent"));
            b.put("target", string_value(target.as_str()));
            b.put("has_intrinsic_size", JsonValue::Bool(*has_intrinsic_size));
            b.put("has_size_policy", JsonValue::Bool(*has_size_policy));
            b.put("has_overflow_policy", JsonValue::Bool(*has_overflow_policy));
            b.put("has_scroll_policy", JsonValue::Bool(*has_scroll_policy));
        },
        ProbeProduct::DispatchGraph { target, frame, graph } => {
            b.put("kind", string_value("dispatch_graph"));
            b.put("target", string_value(target.as_str()));
            b.put("frame", frame_json(frame));
            b.put("graph", dispatch_graph_summary(graph));
        },
    }
    b.build()
}


/// The variant name of a probe product.
pub open spec fn probe_label(p: ProbeProduct) -> Seq<char> {
    match p {
        ProbeProduct::Event { .. } => "Event"@,
        ProbeProduct::Diagnostic(_) => "Diagnostic"@,
        ProbeProduct::RenderEvidence(_) => "RenderEvidence"@,
        ProbeProduct::RenderPacket(_) => "RenderPacket"@,
        ProbeProduct::ViewDefinition { .. } => "ViewDefinition"@,
        ProbeProduct::State { .. } => "State"@,
        ProbeProduct::Topology { .. } => "Topology"@,
        ProbeProduct::Change { .. } => "Change"@,
        ProbeProduct::Paint { .. } => "Paint"@,
        ProbeProduct::Semantics { .. } => "Semantics"@,
        ProbeProduct::Surface { .. } => "Surface"@,
        ProbeProduct::LayoutIntent { .. } => "LayoutIntent"@,
        ProbeProduct::DispatchGraph { .. } => "DispatchGraph"@,
    }
}

fn probe_label_json(p: &ProbeProduct) -> (r: JsonValue)
    ensures
        tree(r) == JsonTree::Str(probe_label(*p)),
{
    string_value(match p {
        ProbeProduct::Event { .. } => "Event",
        ProbeProduct::Diagnostic(_) => "Diagnostic",
        ProbeProduct::RenderEvidence(_) => "RenderEvidence",
        ProbeProduct::RenderPacket(_) => "RenderPacket",
        ProbeProduct::ViewDefinition { .. } => "ViewDefinition",
        ProbeProduct::State { .. } => "State",
        ProbeProduct::Topology { .. } => "Topology",
        ProbeProduct::Change { .. } => "Change",
        ProbeProduct::Paint { .. } => "Paint",
        ProbeProduct::Semantics { .. } => "Semantics",
        ProbeProduct::Surface { .. } => "Surface",
        ProbeProduct::LayoutIntent { .. } => "LayoutIntent",
        ProbeProduct::DispatchGraph { .. } => "DispatchGraph",
    })
}

pub open spec fn opt_source_tree(s: Option<EvidenceSource>) -> JsonTree {
    match s {
        Some(x) => source_tree(x),
        None => JsonTree::Null,
    }
}

pub open spec fn product_kind_name(p: DebugReplyProduct) -> Seq<char> {
    match p {
        DebugReplyProduct::Status(_) => "status"@,
        DebugReplyProduct::Probes(_) => "probes"@,
        DebugReplyProduct::Render(RenderProduct::Evidence(_)) => "render_evidence"@,
        DebugReplyProduct::Render(RenderProduct::Refusal(_)) => "render_refusal"@,
        DebugReplyProduct::Screenshot(PresentedScreenshotProduct::Captured(_)) => "presented_screenshot_unfinalized"@,
        DebugReplyProduct::Screenshot(PresentedScreenshotProduct::Refusal(_)) => "screenshot_refusal"@,
        DebugReplyProduct::Diagnostics(_) => "diagnostics"@,
        DebugReplyProduct::ControlTrace(_) => "control_trace"@,
        DebugReplyProduct::CompositionTrace(_) => "text_composition_trace"@,
        DebugReplyProduct::Error(_) => "error"@,
    }
}

pub open spec fn pixels_tree(px: PresentedPixels) -> JsonTree {
    JsonTree::Object(Seq::empty().push(("admission"@, JsonTree::Str(admission_name(admission_of(px.selector))))).push(("requested_frame"@, frame_tree(correlation_of(px.selector)))).push(("selector"@, selector_tree(px.selector))).push(("captured_frame"@, frame_tree(px.captured_frame))).push(("source"@, source_tree(px.source))).push(("capture_path"@, JsonTree::Str(capture_path_name(px.capture_path)))).push(("source_format"@, JsonTree::Str(surface_format_name(px.source_format)))).push(("transfer"@, JsonTree::Str(transfer_name(px.transfer)))).push(("alpha"@, JsonTree::Str(alpha_name(px.alpha)))).push(("width"@, JsonTree::UInt(px.width as u64))).push(("height"@, JsonTree::UInt(px.height as u64))).push(("diagnostics"@, diagnostics_tree(px.diagnostics@))))
}

pub open spec fn screenshot_refusal_tree(r: PresentedScreenshotRefusal) -> JsonTree {
    JsonTree::Object(Seq::empty().push(("admission"@, JsonTree::Str(admission_name(admission_of(r.selector))))).push(("requested_frame"@, frame_tree(correlation_of(r.selector)))).push(("selector"@, selector_tree(r.selector))).push(("captured_frame"@, opt_frame_tree(r.captured_frame))).push(("backend_id"@, opt_str_tree(r.backend_id))).push(("code"@, JsonTree::Str(r.code@))).push(("reason"@, JsonTree::Str(r.reason@))).push(("diagnostics"@, diagnostics_tree(r.diagnostics@))))
}

pub fn screenshot_refusal_summary(r: &PresentedScreenshotRefusal) -> (v: JsonValue)
    ensures
        tree(v) == screenshot_refusal_tree(*r),
{
    let mut b = ObjectBuilder::new();
    b.put("admission", string_value(screenshot_admission_name(r.selector.admission())));
    b.put("requested_frame", frame_json(r.selector.correlation_frame()));
    b.put("selector", screenshot_selector_json(&r.selector));
    b.put("captured_frame", opt_frame_json(&r.captured_frame));
    b.put("backend_id", opt_string_value(&r.backend_id));
    b.put("code", string_value(r.code.as_str()));
    b.put("reason", string_value(r.reason.as_str()));
    b.put("diagnostics", diagnostics_summary(&r.diagnostics));
    b.build()
}

pub open spec fn product_tree(p: DebugReplyProduct) -> JsonTree {
    match p {
        DebugReplyProduct::Status(s) => status_tree(s),
        DebugReplyProduct::Probes(ps) => JsonTree::Object(Seq::empty().push(("count"@, JsonTree::UInt(ps@.len() as u64))).push(("kinds"@, JsonTree::Array(ps@.map_values(|x: ProbeProduct| JsonTree::Str(probe_label(x)))))).push(("products"@, JsonTree::Array(ps@.map_values(|x: ProbeProduct| probe_tree(x)))))),
        DebugReplyProduct::Render(RenderProduct::Evidence(e)) => JsonTree::Object(Seq::empty().push(("target"@, JsonTree::Str(e.target@))).push(("frame"@, frame_tree(e.frame))).push(("source"@, source_tree(e.source))).push(("provider_id"@, JsonTree::Str(e.provider_id@))).push(("artifact_ref"@, opt_str_tree(e.artifact_ref))).push(("artifact_path"@, opt_str_tree(e.artifact_path))).push(("pixel_hash"@, opt_str_tree(e.pixel_hash))).push(("width"@, opt_u32_tree(e.width))).push(("height"@, opt_u32_tree(e.height))).push(("diagnostics"@, diagnostics_tree(e.diagnostics@)))),
        DebugReplyProduct::Render(RenderProduct::Refusal(r)) => JsonTree::Object(Seq::empty().push(("target"@, opt_str_tree(r.target))).push(("frame"@, frame_tree(r.frame))).push(("source"@, opt_source_tree(r.source))).push(("provider_id"@, opt_str_tree(r.provider_id))).push(("reason"@, JsonTree::Str(r.reason@))).push(("diagnostics"@, diagnostics_tree(r.diagnostics@)))),
        DebugReplyProduct::Screenshot(PresentedScreenshotProduct::Captured(px)) => pixels_tree(px),
        DebugReplyProduct::Screenshot(PresentedScreenshotProduct::Refusal(r)) => screenshot_refusal_tree(r),
        DebugReplyProduct::Diagnostics(ds) => JsonTree::Object(Seq::empty().push(("count"@, JsonTree::UInt(ds@.len() as u64))).push(("diagnostics"@, diagnostics_tree(ds@)))),
        DebugReplyProduct::ControlTrace(t) => control_trace_tree(t),
        DebugReplyProduct::CompositionTrace(t) => composition_trace_tree(t),
        DebugReplyProduct::Error(f) => failure_tree(f),
    }
}

fn pixels_summary(px: &PresentedPixels) -> (r: JsonValue)
    ensures
        tree(r) == pixels_tree(*px),
{
    let mut b = ObjectBuilder::new();
    b.put("admission", string_value(screenshot_admission_name(px.selector.admission())));
    b.put("requested_frame", frame_json(px.selector.correlation_frame()));
    b.put("selector", screenshot_selector_json(&px.selector));
    b.put("captured_frame", frame_json(&px.captured_frame));
    b.put("source", evidence_source_summary(&px.source));
    b.put("capture_path", string_value(presented_capture_path_name(px.capture_path)));
    b.put("source_format", string_value(presented_surface_format_name(px.source_format)));
    b.put("transfer", string_value(presented_transfer_name(px.transfer)));
    b.put("alpha", string_value(presented_alpha_name(px.alpha)));
    b.put("width", JsonValue::UInt(px.width as u64));
    b.put("height", JsonValue::UInt(px.height as u64));
    b.put("diagnostics", diagnostics_summary(&px.diagnostics));
    b.build()
}

/// The kind name of a reply product and its summary.
pub fn product_summary(p: &DebugReplyProduct) -> (r: (&'static str, JsonValue))
    ensures
        r.0@ == product_kind_name(*p),
        tree(r.1) == product_tree(*p),
{
    match p {
        DebugReplyProduct::Status(s) => ("status", status_summary(s)),
        DebugReplyProduct::Probes(ps) => {
            let mut b = ObjectBuilder::new();
            b.put("count", JsonValue::UInt(ps.len() as u64));
            b.put("kinds", map_array(ps, probe_label_json, Ghost(|x: ProbeProduct| JsonTree::Str(probe_label(x)))));
            b.put("products", map_array(ps, probe_product_summary, Ghost(|x: ProbeProduct| probe_tree(x))));
            ("probes", b.build())
        },
        DebugReplyProduct::Render(RenderProduct::Evidence(e)) => {
            let mut b = ObjectBuilder::new();
            b.put("target", string_value(e.target.as_str()));
            b.put("frame", frame_json(&e.frame));
            b.put("source", evidence_source_summary(&e.source));
            b.put("provider_id", string_value(e.provider_id.as_str()));
            b.put("artifact_ref", opt_string_value(&e.artifact_ref));
            b.put("artifact_path", opt_string_value(&e.artifact_path));
            b.put("pixel_hash", opt_string_value(&e.pixel_hash));
            b.put("width", opt_u32_json(e.width));
            b.put("height", opt_u32_json(e.height));
            b.put("diagnostics", diagnostics_summary(&e.diagnostics));
            ("render_evidence", b.build())
        },
        DebugReplyProduct::Render(RenderProduct::Refusal(r)) => {
            let mut b = ObjectBuilder::new();
            b.put("target", opt_string_value(&r.target));
            b.put("frame", frame_json(&r.frame));
            b.put("source", match &r.source {
                Some(s) => evidence_source_summary(s),
                None => JsonValue::Null,
            });
            b.put("provider_id", opt_string_value(&r.provider_id));
            b.put("reason", string_value(r.reason.as_str()));
            b.put("diagnostics", diagnostics_summary(&r.diagnostics));
            ("render_refusal", b.build())
        },
        DebugReplyProduct::Screenshot(PresentedScreenshotProduct::Captured(px)) => (
            "presented_screenshot_unfinalized",
            pixels_summary(px),
        ),
        DebugReplyProduct::Screenshot(PresentedScreenshotProduct::Refusal(r)) => (
            "screenshot_refusal",
            screenshot_refusal_summary(r),
        ),
        DebugReplyProduct::Diagnostics(ds) => {
            let mut b = ObjectBuilder::new();
            b.put("count", JsonValue::UInt(ds.len() as u64));
            b.put("diagnostics", diagnostics_summary(ds));
            ("diagnostics", b.build())
        },
        DebugReplyProduct::ControlTrace(t) => ("control_trace", control_trace_summary(t)),
        DebugReplyProduct::CompositionTrace(t) => ("text_composition_trace", composition_trace_summary(t)),
        DebugReplyProduct::Error(f) => ("error", failure_summary(f)),
    }
}

pub open spec fn call_envelope(tool: Seq<char>, method: McpProbeMethod, request_id: Seq<char>, frame: FrameIdentity, admitted: bool, refused: bool, product_kind: Seq<char>) -> Seq<(Seq<char>, JsonTree)> {
    Seq::empty().push(("method"@, JsonTree::Str("tools/call"@))).push(("tool"@, JsonTree::Str(tool))).push(("bridge_method"@, JsonTree::Str(method_name(method)))).push(("request_id"@, JsonTree::Str(request_id))).push(("frame"@, frame_tree(frame))).push(("admitted"@, JsonTree::Bool(admitted))).push(("refused"@, JsonTree::Bool(refused))).push(("product_kind"@, JsonTree::Str(product_kind)))
}

fn envelope(tool: &str, method: McpProbeMethod, request_id: &str, frame: &FrameIdentity, admitted: bool, refused: bool, product_kind: &str) -> (r: ObjectBuilder)
    ensures
        r.entries() == call_envelope(tool@, method, request_id@, *frame, admitted, refused, product_kind@),
{
    let mut b = ObjectBuilder::new();
    b.put("method", string_value("tools/call"));
    b.put("tool", string_value(tool));
    b.put("bridge_method", string_value(bridge_method_name(method)));
    b.put("request_id", string_value(request_id));
    b.put("frame", frame_json(frame));
    b.put("admitted", JsonValue::Bool(admitted));
    b.put("refused", JsonValue::Bool(refused));
    b.put("product_kind", string_value(product_kind));
    b
}

pub open spec fn reply_payload_tree(tool: Seq<char>, method: McpProbeMethod, reply: DebugReply, admitted: bool) -> JsonTree {
    JsonTree::Object(
        call_envelope(tool, method, reply.request_id@, reply.frame, admitted, false, product_kind_name(reply.product))
            .push(("product"@, product_tree(reply.product))),
    )
}

/// The tool call payload of a reply: envelope, product kind and product summary.
pub fn reply_payload(tool: &str, method: McpProbeMethod, reply: &DebugReply, admitted: bool) -> (r: JsonValue)
    ensures
        tree(r) == reply_payload_tree(tool@, method, *reply, admitted),
{
    let (kind, product) = product_summary(&reply.product);
    let mut b = envelope(tool, method, reply.request_id.as_str(), &reply.frame, admitted, false, kind);
    b.put("product", product);
    b.build()
}

pub open spec fn refusal_tree(code: Seq<char>, message: Seq<char>) -> JsonTree {
    JsonTree::Object(Seq::empty().push(("code"@, JsonTree::Str(code))).push(("message"@, JsonTree::Str(message))))
}

fn refusal_object(code: &str, message: &str) -> (r: JsonValue)
    ensures
        tree(r) == refusal_tree(code@, message@),
{
    let mut b = ObjectBuilder::new();
    b.put("code", string_value(code));
    b.put("message", string_value(message));
    b.build()
}

pub open spec fn refusal_payload_tree(tool: Seq<char>, method: McpProbeMethod, request_id: Seq<char>, frame: FrameIdentity, code: Seq<char>, message: Seq<char>) -> JsonTree {
    JsonTree::Object(
        call_envelope(tool, method, request_id, frame, false, true, "refusal"@)
            .push(("refusal"@, refusal_tree(code, message))),
    )
}

/// The payload of a tool call refused before it reached the runtime.
pub fn refusal_payload(tool: &str, method: McpProbeMethod, request_id: &str, frame: &FrameIdentity, code: &str, message: &str) -> (r: JsonValue)
    ensures
        tree(r) == refusal_payload_tree(tool@, method, request_id@, *frame, code@, message@),
{
    let mut b = envelope(tool, method, request_id, frame, false, true, "refusal");
    b.put("refusal", refusal_object(code, message));
    b.build()
}

pub open spec fn screenshot_refusal_payload_tree(request_id: Seq<char>, selector: PresentedScreenshotSelector, code: Seq<char>, message: Seq<char>) -> JsonTree {
    JsonTree::Object(
        call_envelope("slipway.debug.screenshot"@, McpProbeMethod::Screenshot, request_id, correlation_of(selector), false, true, "refusal"@)
            .push(("admission"@, JsonTree::Str(admission_name(admission_of(selector)))))
            .push(("requested_frame"@, frame_tree(correlation_of(selector))))
            .push(("selector"@, selector_tree(selector)))
            .push(("captured_frame"@, JsonTree::Null))
            .push(("refusal"@, refusal_tree(code, message))),
    )
}

/// The payload of a screenshot refused before it reached the runtime.
pub fn screenshot_refusal_payload(request_id: &str, selector: &PresentedScreenshotSelector, code: &str, message: &str) -> (r: JsonValue)
    ensures
        tree(r) == screenshot_refusal_payload_tree(request_id@, *selector, code@, message@),
{
    let mut b = envelope("slipway.debug.screenshot", McpProbeMethod::Screenshot, request_id, selector.correlation_frame(), false, true, "refusal");
    b.put("admission", string_value(screenshot_admission_name(selector.admission())));
    b.put("requested_frame", frame_json(selector.correlation_frame()));
    b.put("selector", screenshot_selector_json(selector));
    b.put("captured_frame", JsonValue::Null);
    b.put("refusal", refusal_object(code, message));
    b.build()
}

pub open spec fn opt_tree(v: Option<JsonValue>) -> JsonTree {
    match v {
        Some(x) => tree(x),
        None => JsonTree::Null,
    }
}

pub open spec fn rpc_result_tree(id: Option<JsonValue>, result: JsonTree) -> JsonTree {
    JsonTree::Object(Seq::empty().push(("jsonrpc"@, JsonTree::Str("2.0"@))).push(("id"@, opt_tree(id))).push(("result"@, result)))
}

/// A JSON-RPC result response; a missing id answers as `null`.
pub fn json_rpc_result(id: Option<JsonValue>, result: JsonValue) -> (r: JsonValue)
    ensures
        tree(r) == rpc_result_tree(id, tree(result)),
{
    let mut b = ObjectBuilder::new();
    b.put("jsonrpc", string_value("2.0"));
    b.put("id", match id {
        Some(v) => v,
        None => JsonValue::Null,
    });
    b.put("result", result);
    b.build()
}

pub open spec fn rpc_error_tree(id: Option<JsonValue>, code: i64, message: Seq<char>) -> JsonTree {
    JsonTree::Object(Seq::empty().push(("jsonrpc"@, JsonTree::Str("2.0"@))).push(("id"@, opt_tree(id))).push(("error"@, JsonTree::Object(Seq::empty().push(("code"@, JsonTree::Int(code))).push(("message"@, JsonTree::Str(message)))))))
}

/// A JSON-RPC error response; a missing id answers as `null`.
pub fn json_rpc_error(id: Option<JsonValue>, code: i64, message: &str) -> (r: JsonValue)
    ensures
        tree(r) == rpc_error_tree(id, code, message@),
{
    let mut e = ObjectBuilder::new();
    e.put("code", JsonValue::Int(code));
    e.put("message", string_value(message));
    let mut b = ObjectBuilder::new();
    b.put("jsonrpc", string_value("2.0"));
    b.put("id", match id {
        Some(v) => v,
        None => JsonValue::Null,
    });
    b.put("error", e.build());
    b.build()
}

pub open spec fn tool_result_tree(payload: JsonTree) -> JsonTree {
    JsonTree::Object(Seq::empty().push(("content"@, JsonTree::Array(Seq::empty().push(JsonTree::Object(Seq::empty().push(("type"@, JsonTree::Str("text"@))).push(("text"@, JsonTree::Text(Box::new(payload))))))))))
}

/// A tool result whose one text content is the payload's JSON text.
pub fn tool_result(payload: JsonValue) -> (r: JsonValue)
    ensures
        tree(r) == tool_result_tree(tree(payload)),
{
    let mut item = ObjectBuilder::new();
    item.put("type", string_value("text"));
    item.put("text", JsonValue::Text(Box::new(payload)));
    let mut items: Vec<JsonValue> = Vec::new();
    crate::json::push_value(&mut items, item.build());
    let mut b = ObjectBuilder::new();
    b.put("content", crate::json::array(items));
    b.build()
}

} // verus!
