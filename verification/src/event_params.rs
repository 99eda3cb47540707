//! Reading declared input events from tool arguments.
use vstd::prelude::*;
use crate::frame::Coord;
use crate::input::{
    CommandEvent, FocusEvent, InputEvent, KeyboardDetails, KeyboardEvent, PointerDetails,
    PointerEvent, TextInputEvent, WheelEvent, WidgetSlotAddress,
};
use crate::json::{json_get, JsonValue};
use crate::params::{
    buttons_val, key_event_kind_named, key_location_named, modifiers_val, parse_key_event_kind,
    parse_key_location, parse_modifiers, parse_optional_widget_slot_address, parse_point,
    parse_pointer_buttons, parse_pointer_device, parse_pointer_event_kind, parse_pointer_button,
    point_err, point_val, pointer_button_named, pointer_device_named, pointer_event_kind_named,
    slot_err, slot_matches, word_err,
};
use crate::rpc::{
    first, object_err, object_val, opt_bool_err, opt_bool_val, opt_coord_err, opt_coord_val,
    opt_string_err, opt_string_val, opt_u64_err, opt_u64_val, optional_bool_field,
    optional_f32_field, optional_owned_string_field, optional_string_field, optional_u64_field,
    parsed, quoted, required_object_field, required_owned_string_field, required_string_field,
    string_err, string_val, unsupported, unsupported_value, RpcError, INVALID_PARAMS,
};
use crate::text::{decimal, owned, str_eq, u64_to_decimal};
use crate::command::{DebugPhysicalControl, DebugPhysicalControlDeclarationSelector, DebugTextCompositionUpdate};
use crate::input::PointerEventKind;
use crate::json::json_is_object;
use crate::params::{
    buttons_of, optional_text_selection_range, parse_text_edit_kind, pointer_buttons_from_button,
    range_err, range_val, text_edit_kind_named,
};
use crate::rpc::{array_err, array_val, invalid_field, must_be, required_array_field};
use vstd::string::*;
use vstd::utf8::encode_utf8;

verus! {

/// The member that names an operation: `type`, or else `kind`.
pub open spec fn kind_err(v: JsonValue) -> Option<Seq<char>> {
    if string_err(v, "type"@) is None {
        None
    } else {
        string_err(v, "kind"@)
    }
}

pub open spec fn kind_val(v: JsonValue) -> Seq<char> {
    if string_err(v, "type"@) is None {
        string_val(v, "type"@)@
    } else {
        string_val(v, "kind"@)@
    }
}

pub fn operation_kind(value: &JsonValue) -> (r: Result<&String, RpcError>)
    ensures
        match r {
            Ok(k) => kind_err(*value) is None && k@ == kind_val(*value),
            Err(e) => e.code == INVALID_PARAMS && kind_err(*value) == Some(e.message@),
        },
{
    match required_string_field(value, "type") {
        Ok(k) => Ok(k),
        Err(_) => required_string_field(value, "kind"),
    }
}

/// An optional word member, or its default when absent.
pub open spec fn opt_word(v: JsonValue, field: Seq<char>, default: Seq<char>) -> Seq<char> {
    match opt_string_val(v, field) {
        Some(s) => s@,
        None => default,
    }
}

pub fn optional_word<'a>(value: &'a JsonValue, field: &str, default: &'a str) -> (r: Result<&'a str, RpcError>)
    ensures
        match r {
            Ok(w) => opt_string_err(*value, field@) is None && w@ == opt_word(*value, field@, default@),
            Err(e) => e.code == INVALID_PARAMS && opt_string_err(*value, field@) == Some(e.message@),
        },
{
    match optional_string_field(value, field)? {
        Some(s) => Ok(s.as_str()),
        None => Ok(default),
    }
}

pub open spec fn zero() -> Coord {
    Coord { bits: 0 }
}

pub open spec fn coord_or_zero(c: Option<Coord>) -> Coord {
    match c {
        Some(x) => x,
        None => zero(),
    }
}

pub open spec fn bool_or(b: Option<bool>, default: bool) -> bool {
    match b {
        Some(x) => x,
        None => default,
    }
}

// Pointer fields shared by declared events and physical operations.
pub open spec fn button_err(v: JsonValue) -> Option<Seq<char>> {
    first(
        opt_string_err(v, "button"@),
        match opt_string_val(v, "button"@) {
            Some(b) => word_err(pointer_button_named(b@), "pointer button"@, b@),
            None => None,
        },
    )
}

pub open spec fn button_val(v: JsonValue) -> Option<crate::input::PointerButton> {
    match opt_string_val(v, "button"@) {
        Some(b) => pointer_button_named(b@),
        None => None,
    }
}

pub fn parse_optional_button(value: &JsonValue) -> (r: Result<Option<crate::input::PointerButton>, RpcError>)
    ensures
        parsed(r, button_err(*value), button_val(*value)),
{
    match optional_string_field(value, "button")? {
        Some(b) => Ok(Some(parse_pointer_button(b.as_str())?)),
        None => Ok(None),
    }
}

/// The errors of the optional pointer detail members, in order.
pub open spec fn pointer_tail_err(v: JsonValue) -> Option<Seq<char>> {
    first(
        opt_coord_err(v, "pressure"@),
        first(
            opt_coord_err(v, "tilt_x"@),
            first(opt_coord_err(v, "tilt_y"@), opt_coord_err(v, "twist"@)),
        ),
    )
}

pub open spec fn keyboard_details_err(v: JsonValue) -> Option<Seq<char>> {
    first(
        opt_string_err(v, "logical_key"@),
        first(
            opt_string_err(v, "physical_key"@),
            first(
                opt_string_err(v, "text"@),
                first(
                    opt_bool_err(v, "repeat"@),
                    first(
                        opt_string_err(v, "location"@),
                        word_err(
                            key_location_named(opt_word(v, "location"@, "unknown"@)),
                            "keyboard location"@,
                            opt_word(v, "location"@, "unknown"@),
                        ),
                    ),
                ),
            ),
        ),
    )
}

pub open spec fn keyboard_details_val(v: JsonValue) -> KeyboardDetails {
    KeyboardDetails {
        logical_key: opt_string_val(v, "logical_key"@),
        physical_key: opt_string_val(v, "physical_key"@),
        text: opt_string_val(v, "text"@),
        repeat: bool_or(opt_bool_val(v, "repeat"@), false),
        location: key_location_named(opt_word(v, "location"@, "unknown"@))->0,
    }
}

/// Keyboard details: logical and physical key, text, repeat and location.
pub fn parse_keyboard_details(value: &JsonValue) -> (r: Result<KeyboardDetails, RpcError>)
    ensures
        parsed(r, keyboard_details_err(*value), keyboard_details_val(*value)),
{
    let logical_key = optional_owned_string_field(value, "logical_key")?;
    let physical_key = optional_owned_string_field(value, "physical_key")?;
    let text = optional_owned_string_field(value, "text")?;
    let repeat = match optional_bool_field(value, "repeat")? {
        Some(b) => b,
        None => false,
    };
    let location = parse_key_location(optional_word(value, "location", "unknown")?)?;
    Ok(KeyboardDetails { logical_key, physical_key, text, repeat, location })
}

pub open spec fn key_phase_err(v: JsonValue) -> Option<Seq<char>> {
    first(
        opt_string_err(v, "phase"@),
        word_err(
            key_event_kind_named(opt_word(v, "phase"@, "press"@)),
            "keyboard phase"@,
            opt_word(v, "phase"@, "press"@),
        ),
    )
}

pub open spec fn pointer_phase_err(v: JsonValue, default: Seq<char>) -> Option<Seq<char>> {
    first(
        opt_string_err(v, "phase"@),
        word_err(
            pointer_event_kind_named(opt_word(v, "phase"@, default)),
            "pointer phase"@,
            opt_word(v, "phase"@, default),
        ),
    )
}

pub open spec fn device_err(v: JsonValue, default: Seq<char>) -> Option<Seq<char>> {
    first(
        opt_string_err(v, "device"@),
        word_err(
            pointer_device_named(opt_word(v, "device"@, default)),
            "pointer device"@,
            opt_word(v, "device"@, default),
        ),
    )
}

/// The error of the part of a declared event after its type, target and slot.
pub open spec fn event_body_err(v: JsonValue, kind: Seq<char>) -> Option<Seq<char>> {
    if kind == "command"@ || kind == "Command"@ {
        first(
            string_err(v, "command"@),
            first(opt_string_err(v, "payload_ref"@), opt_string_err(v, "source"@)),
        )
    } else if kind == "text"@ || kind == "Text"@ {
        string_err(v, "text"@)
    } else if kind == "wheel"@ || kind == "Wheel"@ {
        first(opt_coord_err(v, "delta_x"@), opt_coord_err(v, "delta_y"@))
    } else if kind == "focus"@ || kind == "Focus"@ {
        opt_bool_err(v, "focused"@)
    } else if kind == "keyboard"@ || kind == "Keyboard"@ {
        first(string_err(v, "key"@), first(key_phase_err(v), keyboard_details_err(v)))
    } else if kind == "pointer"@ || kind == "Pointer"@ {
        first(
            object_err(v, "position"@),
            first(
                point_err(object_val(v, "position"@)),
                first(
                    pointer_phase_err(v, "move"@),
                    first(
                        button_err(v),
                        first(
                            opt_u64_err(v, "pointer_id"@),
                            first(device_err(v, "unknown"@), pointer_tail_err(v)),
                        ),
                    ),
                ),
            ),
        )
    } else {
        Some(unsupported("input event type"@, kind))
    }
}

pub open spec fn input_event_err(v: JsonValue) -> Option<Seq<char>> {
    first(
        kind_err(v),
        first(string_err(v, "target"@), first(slot_err(v), event_body_err(v, kind_val(v)))),
    )
}

pub open spec fn event_slot(e: InputEvent) -> Option<WidgetSlotAddress> {
    match e {
        InputEvent::Pointer(p) => p.target_slot,
        InputEvent::Keyboard(k) => k.target_slot,
        InputEvent::Text(t) => t.target_slot,
        InputEvent::TextEdit(t) => t.target_slot,
        InputEvent::TextComposition(t) => t.target_slot,
        InputEvent::Wheel(w) => w.target_slot,
        InputEvent::Focus(f) => f.target_slot,
        InputEvent::Command(c) => c.target_slot,
    }
}

pub open spec fn pointer_details_val(v: JsonValue, device_default: Seq<char>, buttons: crate::input::PointerButtons) -> PointerDetails {
    PointerDetails {
        pointer_id: opt_u64_val(v, "pointer_id"@),
        device: pointer_device_named(opt_word(v, "device"@, device_default))->0,
        buttons,
        modifiers: modifiers_val(json_get(v, "modifiers"@)),
        pressure: opt_coord_val(v, "pressure"@),
        tilt_x: opt_coord_val(v, "tilt_x"@),
        tilt_y: opt_coord_val(v, "tilt_y"@),
        twist: opt_coord_val(v, "twist"@),
    }
}

/// The declared event the arguments describe, given the slot read from them.
pub open spec fn input_event_val(v: JsonValue, slot: Option<WidgetSlotAddress>) -> InputEvent {
    let kind = kind_val(v);
    let target = string_val(v, "target"@);
    if kind == "command"@ || kind == "Command"@ {
        InputEvent::Command(
            CommandEvent {
                target,
                target_slot: slot,
                command: string_val(v, "command"@),
                payload_ref: opt_string_val(v, "payload_ref"@),
                source: opt_string_val(v, "source"@),
            },
        )
    } else if kind == "text"@ || kind == "Text"@ {
        InputEvent::Text(TextInputEvent { target, target_slot: slot, text: string_val(v, "text"@) })
    } else if kind == "wheel"@ || kind == "Wheel"@ {
        InputEvent::Wheel(
            WheelEvent {
                target,
                target_slot: slot,
                region_id: None,
                delta_x: coord_or_zero(opt_coord_val(v, "delta_x"@)),
                delta_y: coord_or_zero(opt_coord_val(v, "delta_y"@)),
            },
        )
    } else if kind == "focus"@ || kind == "Focus"@ {
        InputEvent::Focus(
            FocusEvent {
                target,
                target_slot: slot,
                focused: bool_or(opt_bool_val(v, "focused"@), true),
            },
        )
    } else if kind == "keyboard"@ || kind == "Keyboard"@ {
        InputEvent::Keyboard(
            KeyboardEvent {
                target,
                target_slot: slot,
                key: string_val(v, "key"@),
                kind: key_event_kind_named(opt_word(v, "phase"@, "press"@))->0,
                modifiers: modifiers_val(json_get(v, "modifiers"@)),
                details: keyboard_details_val(v),
            },
        )
    } else {
        InputEvent::Pointer(
            PointerEvent {
                target,
                target_slot: slot,
                position: point_val(object_val(v, "position"@)),
                target_bounds: None,
                kind: pointer_event_kind_named(opt_word(v, "phase"@, "move"@))->0,
                button: button_val(v),
                details: pointer_details_val(v, "unknown"@, buttons_val(json_get(v, "buttons"@))),
            },
        )
    }
}

/// A declared input event: `type` (or `kind`), `target`, an optional
/// `target_slot`, and the members of its kind.
pub fn parse_input_event(event: &JsonValue) -> (r: Result<InputEvent, RpcError>)
    ensures
        match r {
            Ok(e) => input_event_err(*event) is None && slot_matches(event_slot(e), *event) && e
                == input_event_val(*event, event_slot(e)),
            Err(e) => e.code == INVALID_PARAMS && input_event_err(*event) == Some(e.message@),
        },
{
    let kind = operation_kind(event)?;
    let target = required_owned_string_field(event, "target")?;
    let target_slot = parse_optional_widget_slot_address(event)?;
    let k = kind.as_str();
    if str_eq(k, "command") || str_eq(k, "Command") {
        let command = required_owned_string_field(event, "command")?;
        let payload_ref = optional_owned_string_field(event, "payload_ref")?;
        let source = optional_owned_string_field(event, "source")?;
        Ok(InputEvent::Command(CommandEvent { target, target_slot, command, payload_ref, source }))
    } else if str_eq(k, "text") || str_eq(k, "Text") {
        let text = required_owned_string_field(event, "text")?;
        Ok(InputEvent::Text(TextInputEvent { target, target_slot, text }))
    } else if str_eq(k, "wheel") || str_eq(k, "Wheel") {
        let delta_x = match optional_f32_field(event, "delta_x")? {
            Some(c) => c,
            None => Coord { bits: 0 },
        };
        let delta_y = match optional_f32_field(event, "delta_y")? {
            Some(c) => c,
            None => Coord { bits: 0 },
        };
        Ok(InputEvent::Wheel(WheelEvent { target, target_slot, region_id: None, delta_x, delta_y }))
    } else if str_eq(k, "focus") || str_eq(k, "Focus") {
        let focused = match optional_bool_field(event, "focused")? {
            Some(b) => b,
            None => true,
        };
        Ok(InputEvent::Focus(FocusEvent { target, target_slot, focused }))
    } else if str_eq(k, "keyboard") || str_eq(k, "Keyboard") {
        let key = required_owned_string_field(event, "key")?;
        let key_kind = parse_key_event_kind(optional_word(event, "phase", "press")?)?;
        let modifiers = parse_modifiers(event.get("modifiers"));
        let details = parse_keyboard_details(event)?;
        Ok(InputEvent::Keyboard(KeyboardEvent { target, target_slot, key, kind: key_kind, modifiers, details }))
    } else if str_eq(k, "pointer") || str_eq(k, "Pointer") {
        let position = parse_point(required_object_field(event, "position")?)?;
        let pointer_kind = parse_pointer_event_kind(optional_word(event, "phase", "move")?)?;
        let button = parse_optional_button(event)?;
        let pointer_id = optional_u64_field(event, "pointer_id")?;
        let device = parse_pointer_device(optional_word(event, "device", "unknown")?)?;
        let buttons = parse_pointer_buttons(event.get("buttons"));
        let modifiers = parse_modifiers(event.get("modifiers"));
        let pressure = optional_f32_field(event, "pressure")?;
        let tilt_x = optional_f32_field(event, "tilt_x")?;
        let tilt_y = optional_f32_field(event, "tilt_y")?;
        let twist = optional_f32_field(event, "twist")?;
        Ok(InputEvent::Pointer(PointerEvent {
            target,
            target_slot,
            position,
            target_bounds: None,
            kind: pointer_kind,
            button,
            details: PointerDetails { pointer_id, device, buttons, modifiers, pressure, tilt_x, tilt_y, twist },
        }))
    } else {
        Err(unsupported_value("input event type", k))
    }
}


// Physical-equivalent operations.
pub open spec fn selector_err(v: JsonValue) -> Option<Seq<char>> {
    first(
        opt_string_err(v, "target"@),
        first(
            opt_string_err(v, "region"@),
            if (opt_string_val(v, "target"@) is Some) as int + (opt_string_val(v, "region"@) is Some) as int
                + (json_get(v, "position"@) is Some) as int != 1 {
                Some(
                    "physical control operation must include exactly one of `target`, `region`, or `position`"@,
                )
            } else if opt_string_val(v, "target"@) is Some || opt_string_val(v, "region"@) is Some {
                None
            } else if !json_is_object(json_get(v, "position"@)->0) {
                Some(must_be("position"@, "an object"@))
            } else {
                point_err(json_get(v, "position"@)->0)
            },
        ),
    )
}

pub open spec fn selector_val(v: JsonValue) -> DebugPhysicalControlDeclarationSelector {
    if opt_string_val(v, "target"@) is Some {
        DebugPhysicalControlDeclarationSelector::Target { target: opt_string_val(v, "target"@)->0 }
    } else if opt_string_val(v, "region"@) is Some {
        DebugPhysicalControlDeclarationSelector::Region { region: opt_string_val(v, "region"@)->0 }
    } else {
        DebugPhysicalControlDeclarationSelector::Position { position: point_val(json_get(v, "position"@)->0) }
    }
}

/// The declaration an operation acts on: exactly one of `target`, `region` or `position`.
pub fn parse_physical_control_selector(operation: &JsonValue) -> (r: Result<DebugPhysicalControlDeclarationSelector, RpcError>)
    ensures
        parsed(r, selector_err(*operation), selector_val(*operation)),
{
    let target = optional_string_field(operation, "target")?;
    let region = optional_string_field(operation, "region")?;
    let position = operation.get("position");
    let count: usize = (if target.is_some() { 1usize } else { 0usize }) + (if region.is_some() { 1usize } else { 0usize })
        + (if position.is_some() { 1usize } else { 0usize });
    if count != 1 {
        return Err(RpcError::invalid_params(owned(
            "physical control operation must include exactly one of `target`, `region`, or `position`",
        )));
    }
    if let Some(t) = target {
        return Ok(DebugPhysicalControlDeclarationSelector::Target { target: t.clone() });
    }
    if let Some(g) = region {
        return Ok(DebugPhysicalControlDeclarationSelector::Region { region: g.clone() });
    }
    match position {
        Some(p) => {
            if !p.is_object() {
                return Err(invalid_field("position", "an object"));
            }
            let point = parse_point(p)?;
            Ok(DebugPhysicalControlDeclarationSelector::Position { position: point })
        },
        None => Err(RpcError::invalid_params(owned(
            "physical control operation must include exactly one of `target`, `region`, or `position`",
        ))),
    }
}

pub const MAX_COMPOSITION_UPDATES: usize = 16;
pub const MAX_COMPOSITION_UTF8_BYTES: usize = 65536;

pub open spec fn utf8_len(s: Seq<char>) -> nat {
    encode_utf8(s).len()
}

/// One update of a text composition, read at position `index` with `total`
/// UTF-8 bytes counted before it.
pub open spec fn composition_step(update: JsonValue, index: nat, total: nat) -> Result<(nat, DebugTextCompositionUpdate), Seq<char>> {
    let p = string_val(update, "preedit_text"@);
    let next = total + utf8_len(p@);
    if !json_is_object(update) {
        Err(quoted("text composition updates["@, decimal(index), "] must be an object"@))
    } else if string_err(update, "preedit_text"@) is Some {
        Err(string_err(update, "preedit_text"@)->0)
    } else if p@.len() == 0 {
        Err(quoted("text composition updates["@, decimal(index), "].preedit_text must be non-empty"@))
    } else if next > usize::MAX {
        Err("text composition UTF-8 byte count overflowed"@)
    } else if next > MAX_COMPOSITION_UTF8_BYTES {
        Err("text composition exceeds 65536 total UTF-8 bytes"@)
    } else if range_err(update, "cursor_range"@) is Some {
        Err(range_err(update, "cursor_range"@)->0)
    } else {
        match range_val(update, "cursor_range"@) {
            Some(r) => if r.anchor > p@.len() || r.focus > p@.len() {
                Err(
                    quoted(
                        "text composition updates["@,
                        decimal(index),
                        "].cursor_range must use Unicode scalar indices within the preedit text"@,
                    ),
                )
            } else {
                Ok((next, DebugTextCompositionUpdate { preedit_text: p, cursor_range: Some(r) }))
            },
            None => Ok((next, DebugTextCompositionUpdate { preedit_text: p, cursor_range: None })),
        }
    }
}

/// The updates of a text composition read in order, starting from the bytes of the commit.
pub open spec fn composition_scan(s: Seq<JsonValue>, commit_bytes: nat) -> Result<(nat, Seq<DebugTextCompositionUpdate>), Seq<char>>
    decreases s.len(),
{
    if s.len() == 0 {
        Ok((commit_bytes, Seq::empty()))
    } else {
        match composition_scan(s.drop_last(), commit_bytes) {
            Err(m) => Err(m),
            Ok(acc) => match composition_step(s.last(), (s.len() - 1) as nat, acc.0) {
                Err(m) => Err(m),
                Ok(step) => Ok((step.0, acc.1.push(step.1))),
            },
        }
    }
}

proof fn lemma_composition_err_sticks(s: Seq<JsonValue>, n: int, commit_bytes: nat)
    requires
        0 <= n <= s.len(),
        composition_scan(s.take(n), commit_bytes) is Err,
    ensures
        composition_scan(s, commit_bytes) == composition_scan(s.take(n), commit_bytes),
    decreases s.len() - n,
{
    if n < s.len() {
        assert(s.take(n + 1).drop_last() =~= s.take(n));
        assert(composition_scan(s.take(n + 1), commit_bytes) == composition_scan(s.take(n), commit_bytes));
        lemma_composition_err_sticks(s, n + 1, commit_bytes);
    } else {
        assert(s.take(n) =~= s);
    }
}

pub open spec fn composition_err(v: JsonValue) -> Option<Seq<char>> {
    let updates = array_val(v, "updates"@);
    let commit = string_val(v, "commit"@);
    first(
        array_err(v, "updates"@),
        first(
            if updates.len() == 0 || updates.len() > MAX_COMPOSITION_UPDATES {
                Some("text composition requires 1 through 16 updates"@)
            } else {
                None
            },
            first(
                string_err(v, "commit"@),
                if commit@.len() == 0 {
                    Some("text composition commit must be non-empty"@)
                } else {
                    match composition_scan(updates, utf8_len(commit@)) {
                        Err(m) => Some(m),
                        Ok(_) => None,
                    }
                },
            ),
        ),
    )
}

fn composition_update_at(update: &JsonValue, index: usize, total: usize) -> (r: Result<(usize, DebugTextCompositionUpdate), RpcError>)
    ensures
        match r {
            Ok(p) => composition_step(*update, index as nat, total as nat) == Ok::<(nat, DebugTextCompositionUpdate), Seq<char>>((p.0 as nat, p.1)),
            Err(e) => e.code == INVALID_PARAMS && composition_step(*update, index as nat, total as nat) == Err::<(nat, DebugTextCompositionUpdate), Seq<char>>(e.message@),
        },
{
    if !update.is_object() {
        let mut m = owned("text composition updates[");
        m.append(u64_to_decimal(index as u64).as_str());
        m.append("] must be an object");
        return Err(RpcError::invalid_params(m));
    }
    let preedit_text = required_string_field(update, "preedit_text")?;
    if preedit_text.as_str().unicode_len() == 0 {
        let mut m = owned("text composition updates[");
        m.append(u64_to_decimal(index as u64).as_str());
        m.append("].preedit_text must be non-empty");
        return Err(RpcError::invalid_params(m));
    }
    let bytes = preedit_text.as_str().as_bytes().len();
    let next = match total.checked_add(bytes) {
        Some(n) => n,
        None => return Err(RpcError::invalid_params(owned("text composition UTF-8 byte count overflowed"))),
    };
    if next > MAX_COMPOSITION_UTF8_BYTES {
        return Err(RpcError::invalid_params(owned("text composition exceeds 65536 total UTF-8 bytes")));
    }
    let cursor_range = optional_text_selection_range(update, "cursor_range")?;
    if let Some(range) = cursor_range {
        let scalars = preedit_text.as_str().unicode_len();
        if range.anchor > scalars || range.focus > scalars {
            let mut m = owned("text composition updates[");
            m.append(u64_to_decimal(index as u64).as_str());
            m.append("].cursor_range must use Unicode scalar indices within the preedit text");
            return Err(RpcError::invalid_params(m));
        }
    }
    Ok((next, DebugTextCompositionUpdate { preedit_text: preedit_text.clone(), cursor_range }))
}

/// The updates and commit of a text composition operation.
fn parse_composition(operation: &JsonValue) -> (r: Result<(Vec<DebugTextCompositionUpdate>, String), RpcError>)
    ensures
        match r {
            Ok(p) => composition_err(*operation) is None
                && p.1 == string_val(*operation, "commit"@)
                && (composition_scan(array_val(*operation, "updates"@), utf8_len(p.1@)) matches Ok(acc) && acc.1 == p.0@),
            Err(e) => e.code == INVALID_PARAMS && composition_err(*operation) == Some(e.message@),
        },
{
    let values = required_array_field(operation, "updates")?;
    if values.len() == 0 || values.len() > MAX_COMPOSITION_UPDATES {
        return Err(RpcError::invalid_params(owned("text composition requires 1 through 16 updates")));
    }
    let commit = required_string_field(operation, "commit")?;
    if commit.as_str().unicode_len() == 0 {
        return Err(RpcError::invalid_params(owned("text composition commit must be non-empty")));
    }
    let ghost commit_bytes = utf8_len(commit@);
    let mut total: usize = commit.as_str().as_bytes().len();
    let mut updates: Vec<DebugTextCompositionUpdate> = Vec::new();
    let mut i: usize = 0;
    assert(values@.take(0) =~= Seq::<JsonValue>::empty());
    while i < values.len()
        invariant
            i <= values@.len(),
            values@ == array_val(*operation, "updates"@),
            array_err(*operation, "updates"@) is None,
            0 < values@.len() <= MAX_COMPOSITION_UPDATES,
            string_err(*operation, "commit"@) is None,
            *commit == string_val(*operation, "commit"@),
            commit@.len() > 0,
            commit_bytes == utf8_len(commit@),
            composition_scan(values@.take(i as int), commit_bytes) == Ok::<(nat, Seq<DebugTextCompositionUpdate>), Seq<char>>((total as nat, updates@)),
        decreases values@.len() - i,
    {
        assert(values@.take(i + 1).drop_last() =~= values@.take(i as int));
        assert(values@.take(i + 1).last() == values@[i as int]);
        match composition_update_at(&values[i], i, total) {
            Ok(step) => {
                total = step.0;
                updates.push(step.1);
            },
            Err(e) => {
                proof { lemma_composition_err_sticks(values@, i + 1, commit_bytes); }
                return Err(e);
            },
        }
        i += 1;
    }
    assert(values@.take(i as int) =~= values@);
    Ok((updates, commit.clone()))
}

pub open spec fn physical_body_err(v: JsonValue, kind: Seq<char>) -> Option<Seq<char>> {
    if kind == "pointer"@ || kind == "Pointer"@ {
        first(
            pointer_phase_err(v, "press"@),
            first(
                button_err(v),
                first(
                    object_err(v, "position"@),
                    first(
                        point_err(object_val(v, "position"@)),
                        first(
                            opt_u64_err(v, "pointer_id"@),
                            first(
                                device_err(v, "mouse"@),
                                first(pointer_tail_err(v), opt_bool_err(v, "pointer_is_pressed"@)),
                            ),
                        ),
                    ),
                ),
            ),
        )
    } else if kind == "wheel"@ || kind == "Wheel"@ {
        first(
            object_err(v, "position"@),
            first(
                point_err(object_val(v, "position"@)),
                first(opt_coord_err(v, "delta_x"@), opt_coord_err(v, "delta_y"@)),
            ),
        )
    } else if kind == "focus"@ || kind == "Focus"@ {
        first(selector_err(v), opt_bool_err(v, "focused"@))
    } else if kind == "text"@ || kind == "Text"@ {
        first(selector_err(v), string_err(v, "text"@))
    } else if kind == "text_edit"@ || kind == "TextEdit"@ || kind == "textEdit"@ {
        first(
            selector_err(v),
            first(
                opt_string_err(v, "edit_kind"@),
                first(
                    word_err(
                        text_edit_kind_named(opt_word(v, "edit_kind"@, "replace_selection"@)),
                        "text edit kind"@,
                        opt_word(v, "edit_kind"@, "replace_selection"@),
                    ),
                    first(
                        opt_string_err(v, "text"@),
                        first(range_err(v, "selection_before"@), range_err(v, "selection_after"@)),
                    ),
                ),
            ),
        )
    } else if kind == "text_composition"@ || kind == "TextComposition"@ || kind == "textComposition"@ {
        first(selector_err(v), composition_err(v))
    } else if kind == "keyboard"@ || kind == "Keyboard"@ {
        first(
            selector_err(v),
            first(string_err(v, "key"@), first(key_phase_err(v), keyboard_details_err(v))),
        )
    } else if kind == "command"@ || kind == "Command"@ {
        first(selector_err(v), first(string_err(v, "command"@), opt_string_err(v, "payload_ref"@)))
    } else if kind == "scroll"@ || kind == "Scroll"@ {
        first(selector_err(v), first(opt_coord_err(v, "offset_x"@), opt_coord_err(v, "offset_y"@)))
    } else {
        Some(unsupported("physical control operation"@, kind))
    }
}

pub open spec fn physical_err(v: JsonValue) -> Option<Seq<char>> {
    first(kind_err(v), physical_body_err(v, kind_val(v)))
}

pub open spec fn pressed_by_default(kind: PointerEventKind) -> bool {
    kind == PointerEventKind::Press || kind == PointerEventKind::Move || kind == PointerEventKind::Release
}

/// The updates of a text composition operation; no other operation has any.
pub open spec fn physical_updates(op: DebugPhysicalControl) -> Vec<DebugTextCompositionUpdate> {
    match op {
        DebugPhysicalControl::TextComposition { updates, .. } => updates,
        _ => arbitrary(),
    }
}

/// The operation the arguments describe, given the composition updates read from them.
pub open spec fn physical_val(v: JsonValue, updates: Vec<DebugTextCompositionUpdate>) -> DebugPhysicalControl {
    let kind = kind_val(v);
    if kind == "pointer"@ || kind == "Pointer"@ {
        let pointer_kind = pointer_event_kind_named(opt_word(v, "phase"@, "press"@))->0;
        DebugPhysicalControl::Pointer {
            position: point_val(object_val(v, "position"@)),
            kind: pointer_kind,
            button: button_val(v),
            details: pointer_details_val(
                v,
                "mouse"@,
                match json_get(v, "buttons"@) {
                    Some(b) => buttons_val(Some(b)),
                    None => buttons_of(button_val(v)),
                },
            ),
            pointer_is_pressed: bool_or(opt_bool_val(v, "pointer_is_pressed"@), pressed_by_default(pointer_kind)),
        }
    } else if kind == "wheel"@ || kind == "Wheel"@ {
        DebugPhysicalControl::Wheel {
            position: point_val(object_val(v, "position"@)),
            delta_x: coord_or_zero(opt_coord_val(v, "delta_x"@)),
            delta_y: coord_or_zero(opt_coord_val(v, "delta_y"@)),
        }
    } else if kind == "focus"@ || kind == "Focus"@ {
        DebugPhysicalControl::Focus {
            selector: selector_val(v),
            focused: bool_or(opt_bool_val(v, "focused"@), true),
        }
    } else if kind == "text"@ || kind == "Text"@ {
        DebugPhysicalControl::Text { selector: selector_val(v), text: string_val(v, "text"@) }
    } else if kind == "text_edit"@ || kind == "TextEdit"@ || kind == "textEdit"@ {
        DebugPhysicalControl::TextEdit {
            selector: selector_val(v),
            kind: text_edit_kind_named(opt_word(v, "edit_kind"@, "replace_selection"@))->0,
            text: opt_string_val(v, "text"@),
            selection_before: range_val(v, "selection_before"@),
            selection_after: range_val(v, "selection_after"@),
        }
    } else if kind == "text_composition"@ || kind == "TextComposition"@ || kind == "textComposition"@ {
        DebugPhysicalControl::TextComposition {
            selector: selector_val(v),
            updates,
            commit: string_val(v, "commit"@),
        }
    } else if kind == "keyboard"@ || kind == "Keyboard"@ {
        DebugPhysicalControl::Keyboard {
            selector: selector_val(v),
            key: string_val(v, "key"@),
            kind: key_event_kind_named(opt_word(v, "phase"@, "press"@))->0,
            modifiers: modifiers_val(json_get(v, "modifiers"@)),
            details: keyboard_details_val(v),
        }
    } else if kind == "command"@ || kind == "Command"@ {
        DebugPhysicalControl::Command {
            selector: selector_val(v),
            command: string_val(v, "command"@),
            payload_ref: opt_string_val(v, "payload_ref"@),
        }
    } else {
        DebugPhysicalControl::Scroll {
            selector: selector_val(v),
            offset_x: coord_or_zero(opt_coord_val(v, "offset_x"@)),
            offset_y: coord_or_zero(opt_coord_val(v, "offset_y"@)),
        }
    }
}

/// A physical-equivalent operation: `type` (or `kind`) and the members of its kind.
pub fn parse_physical_control(operation: &JsonValue) -> (r: Result<DebugPhysicalControl, RpcError>)
    ensures
        match r {
            Ok(op) => physical_err(*operation) is None
                && op == physical_val(*operation, physical_updates(op))
                && (op is TextComposition ==> (composition_scan(
                    array_val(*operation, "updates"@),
                    utf8_len(string_val(*operation, "commit"@)@),
                ) matches Ok(acc) && acc.1 == physical_updates(op)@)),
            Err(e) => e.code == INVALID_PARAMS && physical_err(*operation) == Some(e.message@),
        },
{
    let kind = operation_kind(operation)?;
    let k = kind.as_str();
    if str_eq(k, "pointer") || str_eq(k, "Pointer") {
        let pointer_kind = parse_pointer_event_kind(optional_word(operation, "phase", "press")?)?;
        let button = parse_optional_button(operation)?;
        let buttons = match operation.get("buttons") {
            Some(b) => parse_pointer_buttons(Some(b)),
            None => pointer_buttons_from_button(button),
        };
        let position = parse_point(required_object_field(operation, "position")?)?;
        let pointer_id = optional_u64_field(operation, "pointer_id")?;
        let device = parse_pointer_device(optional_word(operation, "device", "mouse")?)?;
        let modifiers = parse_modifiers(operation.get("modifiers"));
        let pressure = optional_f32_field(operation, "pressure")?;
        let tilt_x = optional_f32_field(operation, "tilt_x")?;
        let tilt_y = optional_f32_field(operation, "tilt_y")?;
        let twist = optional_f32_field(operation, "twist")?;
        let pointer_is_pressed = match optional_bool_field(operation, "pointer_is_pressed")? {
            Some(b) => b,
            None => match pointer_kind {
                PointerEventKind::Press | PointerEventKind::Move | PointerEventKind::Release => true,
                _ => false,
            },
        };
        Ok(DebugPhysicalControl::Pointer {
            position,
            kind: pointer_kind,
            button,
            details: PointerDetails { pointer_id, device, buttons, modifiers, pressure, tilt_x, tilt_y, twist },
            pointer_is_pressed,
        })
    } else if str_eq(k, "wheel") || str_eq(k, "Wheel") {
        let position = parse_point(required_object_field(operation, "position")?)?;
        let delta_x = match optional_f32_field(operation, "delta_x")? {
            Some(c) => c,
            None => Coord { bits: 0 },
        };
        let delta_y = match optional_f32_field(operation, "delta_y")? {
            Some(c) => c,
            None => Coord { bits: 0 },
        };
        Ok(DebugPhysicalControl::Wheel { position, delta_x, delta_y })
    } else if str_eq(k, "focus") || str_eq(k, "Focus") {
        let selector = parse_physical_control_selector(operation)?;
        let focused = match optional_bool_field(operation, "focused")? {
            Some(b) => b,
            None => true,
        };
        Ok(DebugPhysicalControl::Focus { selector, focused })
    } else if str_eq(k, "text") || str_eq(k, "Text") {
        let selector = parse_physical_control_selector(operation)?;
        let text = required_owned_string_field(operation, "text")?;
        Ok(DebugPhysicalControl::Text { selector, text })
    } else if str_eq(k, "text_edit") || str_eq(k, "TextEdit") || str_eq(k, "textEdit") {
        let selector = parse_physical_control_selector(operation)?;
        let edit_kind = parse_text_edit_kind(optional_word(operation, "edit_kind", "replace_selection")?)?;
        let text = optional_owned_string_field(operation, "text")?;
        let selection_before = optional_text_selection_range(operation, "selection_before")?;
        let selection_after = optional_text_selection_range(operation, "selection_after")?;
        Ok(DebugPhysicalControl::TextEdit { selector, kind: edit_kind, text, selection_before, selection_after })
    } else if str_eq(k, "text_composition") || str_eq(k, "TextComposition") || str_eq(k, "textComposition") {
        let selector = parse_physical_control_selector(operation)?;
        let (updates, commit) = parse_composition(operation)?;
        Ok(DebugPhysicalControl::TextComposition { selector, updates, commit })
    } else if str_eq(k, "keyboard") || str_eq(k, "Keyboard") {
        let selector = parse_physical_control_selector(operation)?;
        let key = required_owned_string_field(operation, "key")?;
        let key_kind = parse_key_event_kind(optional_word(operation, "phase", "press")?)?;
        let modifiers = parse_modifiers(operation.get("modifiers"));
        let details = parse_keyboard_details(operation)?;
        Ok(DebugPhysicalControl::Keyboard { selector, key, kind: key_kind, modifiers, details })
    } else if str_eq(k, "command") || str_eq(k, "Command") {
        let selector = parse_physical_control_selector(operation)?;
        let command = required_owned_string_field(operation, "command")?;
        let payload_ref = optional_owned_string_field(operation, "payload_ref")?;
        Ok(DebugPhysicalControl::Command { selector, command, payload_ref })
    } else if str_eq(k, "scroll") || str_eq(k, "Scroll") {
        let selector = parse_physical_control_selector(operation)?;
        let offset_x = match optional_f32_field(operation, "offset_x")? {
            Some(c) => c,
            None => Coord { bits: 0 },
        };
        let offset_y = match optional_f32_field(operation, "offset_y")? {
            Some(c) => c,
            None => Coord { bits: 0 },
        };
        Ok(DebugPhysicalControl::Scroll { selector, offset_x, offset_y })
    } else {
        Err(unsupported_value("physical control operation", k))
    }
}

} // verus!
