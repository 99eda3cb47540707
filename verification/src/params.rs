//! Reading tool arguments: geometry, frame identities, and the closed
//! vocabularies of input events.
use vstd::prelude::*;
use crate::frame::{Coord, FrameIdentity, Point, Rect, Size};
use crate::input::{
    KeyEventKind, KeyLocation, Modifiers, PointerButton, PointerButtons, PointerDeviceKind,
    PointerEventKind, TextEditKind, TextSelectionRange, WidgetSlotAddress,
};
use crate::json::{json_as_bool, json_get, json_is_object, json_string, JsonValue};
use crate::rpc::{
    array_err, array_val, first, object_err, object_val, parsed, quoted, required_array_field,
    required_f32_field, required_object_field, required_owned_string_field, required_u64_field,
    string_err, string_val, coord_err, coord_val, u64_err, u64_val, unsupported,
    unsupported_value, invalid_field, must_be, opt_u64_err, opt_u64_val, optional_u64_field,
    concat3, opt_string_err, opt_string_val, optional_owned_string_field, RpcError, INVALID_PARAMS,
};
use crate::text::{owned, str_eq};
use crate::command::{ProbeKind, ProbeRequest};
use vstd::string::*;

verus! {

/// The error of a closed-vocabulary parse: none when the word names a value.
pub open spec fn word_err<T>(named: Option<T>, what: Seq<char>, value: Seq<char>) -> Option<Seq<char>> {
    if named is Some {
        None
    } else {
        Some(unsupported(what, value))
    }
}

pub open spec fn key_event_kind_named(s: Seq<char>) -> Option<KeyEventKind> {
    if s == "press"@ || s == "Press"@ {
        Some(KeyEventKind::Press)
    } else if s == "release"@ || s == "Release"@ {
        Some(KeyEventKind::Release)
    } else {
        None
    }
}

pub fn parse_key_event_kind(value: &str) -> (r: Result<KeyEventKind, RpcError>)
    ensures
        parsed(r, word_err(key_event_kind_named(value@), "keyboard phase"@, value@), key_event_kind_named(value@)->0),
{
    if str_eq(value, "press") || str_eq(value, "Press") {
        Ok(KeyEventKind::Press)
    } else if str_eq(value, "release") || str_eq(value, "Release") {
        Ok(KeyEventKind::Release)
    } else {
        Err(unsupported_value("keyboard phase", value))
    }
}

pub open spec fn key_location_named(s: Seq<char>) -> Option<KeyLocation> {
    if s == "standard"@ || s == "Standard"@ {
        Some(KeyLocation::Standard)
    } else if s == "left"@ || s == "Left"@ {
        Some(KeyLocation::Left)
    } else if s == "right"@ || s == "Right"@ {
        Some(KeyLocation::Right)
    } else if s == "numpad"@ || s == "Numpad"@ {
        Some(KeyLocation::Numpad)
    } else if s == "unknown"@ || s == "Unknown"@ {
        Some(KeyLocation::Unknown)
    } else {
        None
    }
}

pub fn parse_key_location(value: &str) -> (r: Result<KeyLocation, RpcError>)
    ensures
        parsed(r, word_err(key_location_named(value@), "keyboard location"@, value@), key_location_named(value@)->0),
{
    if str_eq(value, "standard") || str_eq(value, "Standard") {
        Ok(KeyLocation::Standard)
    } else if str_eq(value, "left") || str_eq(value, "Left") {
        Ok(KeyLocation::Left)
    } else if str_eq(value, "right") || str_eq(value, "Right") {
        Ok(KeyLocation::Right)
    } else if str_eq(value, "numpad") || str_eq(value, "Numpad") {
        Ok(KeyLocation::Numpad)
    } else if str_eq(value, "unknown") || str_eq(value, "Unknown") {
        Ok(KeyLocation::Unknown)
    } else {
        Err(unsupported_value("keyboard location", value))
    }
}

pub open spec fn pointer_event_kind_named(s: Seq<char>) -> Option<PointerEventKind> {
    if s == "move"@ || s == "Move"@ {
        Some(PointerEventKind::Move)
    } else if s == "press"@ || s == "Press"@ {
        Some(PointerEventKind::Press)
    } else if s == "release"@ || s == "Release"@ {
        Some(PointerEventKind::Release)
    } else if s == "enter"@ || s == "Enter"@ {
        Some(PointerEventKind::Enter)
    } else if s == "leave"@ || s == "Leave"@ {
        Some(PointerEventKind::Leave)
    } else if s == "cancel"@ || s == "Cancel"@ {
        Some(PointerEventKind::Cancel)
    } else {
        None
    }
}

pub fn parse_pointer_event_kind(value: &str) -> (r: Result<PointerEventKind, RpcError>)
    ensures
        parsed(r, word_err(pointer_event_kind_named(value@), "pointer phase"@, value@), pointer_event_kind_named(value@)->0),
{
    if str_eq(value, "move") || str_eq(value, "Move") {
        Ok(PointerEventKind::Move)
    } else if str_eq(value, "press") || str_eq(value, "Press") {
        Ok(PointerEventKind::Press)
    } else if str_eq(value, "release") || str_eq(value, "Release") {
        Ok(PointerEventKind::Release)
    } else if str_eq(value, "enter") || str_eq(value, "Enter") {
        Ok(PointerEventKind::Enter)
    } else if str_eq(value, "leave") || str_eq(value, "Leave") {
        Ok(PointerEventKind::Leave)
    } else if str_eq(value, "cancel") || str_eq(value, "Cancel") {
        Ok(PointerEventKind::Cancel)
    } else {
        Err(unsupported_value("pointer phase", value))
    }
}

pub open spec fn text_edit_kind_named(s: Seq<char>) -> Option<TextEditKind> {
    if s == "insert_text"@ || s == "insertText"@ || s == "InsertText"@ {
        Some(TextEditKind::InsertText)
    } else if s == "delete_backward"@ || s == "deleteBackward"@ || s == "DeleteBackward"@ {
        Some(TextEditKind::DeleteBackward)
    } else if s == "delete_forward"@ || s == "deleteForward"@ || s == "DeleteForward"@ {
        Some(TextEditKind::DeleteForward)
    } else if s == "move_caret"@ || s == "moveCaret"@ || s == "MoveCaret"@ {
        Some(TextEditKind::MoveCaret)
    } else if s == "replace_selection"@ || s == "replaceSelection"@ || s == "ReplaceSelection"@ {
        Some(TextEditKind::ReplaceSelection)
    } else if s == "replace_buffer"@ || s == "replaceBuffer"@ || s == "ReplaceBuffer"@ {
        Some(TextEditKind::ReplaceBuffer)
    } else if s == "unknown"@ || s == "Unknown"@ {
        Some(TextEditKind::Unknown)
    } else {
        None
    }
}

fn one_of3(value: &str, a: &str, b: &str, c: &str) -> (r: bool)
    ensures
        r == (value@ == a@ || value@ == b@ || value@ == c@),
{
    str_eq(value, a) || str_eq(value, b) || str_eq(value, c)
}

pub fn parse_text_edit_kind(value: &str) -> (r: Result<TextEditKind, RpcError>)
    ensures
        parsed(r, word_err(text_edit_kind_named(value@), "text edit kind"@, value@), text_edit_kind_named(value@)->0),
{
    if one_of3(value, "insert_text", "insertText", "InsertText") {
        Ok(TextEditKind::InsertText)
    } else if one_of3(value, "delete_backward", "deleteBackward", "DeleteBackward") {
        Ok(TextEditKind::DeleteBackward)
    } else if one_of3(value, "delete_forward", "deleteForward", "DeleteForward") {
        Ok(TextEditKind::DeleteForward)
    } else if one_of3(value, "move_caret", "moveCaret", "MoveCaret") {
        Ok(TextEditKind::MoveCaret)
    } else if one_of3(value, "replace_selection", "replaceSelection", "ReplaceSelection") {
        Ok(TextEditKind::ReplaceSelection)
    } else if one_of3(value, "replace_buffer", "replaceBuffer", "ReplaceBuffer") {
        Ok(TextEditKind::ReplaceBuffer)
    } else if str_eq(value, "unknown") || str_eq(value, "Unknown") {
        Ok(TextEditKind::Unknown)
    } else {
        Err(unsupported_value("text edit kind", value))
    }
}

pub open spec fn pointer_button_named(s: Seq<char>) -> Option<PointerButton> {
    if s == "primary"@ || s == "Primary"@ {
        Some(PointerButton::Primary)
    } else if s == "secondary"@ || s == "Secondary"@ {
        Some(PointerButton::Secondary)
    } else if s == "auxiliary"@ || s == "Auxiliary"@ {
        Some(PointerButton::Auxiliary)
    } else {
        None
    }
}

pub fn parse_pointer_button(value: &str) -> (r: Result<PointerButton, RpcError>)
    ensures
        parsed(r, word_err(pointer_button_named(value@), "pointer button"@, value@), pointer_button_named(value@)->0),
{
    if str_eq(value, "primary") || str_eq(value, "Primary") {
        Ok(PointerButton::Primary)
    } else if str_eq(value, "secondary") || str_eq(value, "Secondary") {
        Ok(PointerButton::Secondary)
    } else if str_eq(value, "auxiliary") || str_eq(value, "Auxiliary") {
        Ok(PointerButton::Auxiliary)
    } else {
        Err(unsupported_value("pointer button", value))
    }
}

pub open spec fn pointer_device_named(s: Seq<char>) -> Option<PointerDeviceKind> {
    if s == "unknown"@ || s == "Unknown"@ {
        Some(PointerDeviceKind::Unknown)
    } else if s == "mouse"@ || s == "Mouse"@ {
        Some(PointerDeviceKind::Mouse)
    } else if s == "touch"@ || s == "Touch"@ {
        Some(PointerDeviceKind::Touch)
    } else if s == "pen"@ || s == "Pen"@ {
        Some(PointerDeviceKind::Pen)
    } else {
        None
    }
}

pub fn parse_pointer_device(value: &str) -> (r: Result<PointerDeviceKind, RpcError>)
    ensures
        parsed(r, word_err(pointer_device_named(value@), "pointer device"@, value@), pointer_device_named(value@)->0),
{
    if str_eq(value, "unknown") || str_eq(value, "Unknown") {
        Ok(PointerDeviceKind::Unknown)
    } else if str_eq(value, "mouse") || str_eq(value, "Mouse") {
        Ok(PointerDeviceKind::Mouse)
    } else if str_eq(value, "touch") || str_eq(value, "Touch") {
        Ok(PointerDeviceKind::Touch)
    } else if str_eq(value, "pen") || str_eq(value, "Pen") {
        Ok(PointerDeviceKind::Pen)
    } else {
        Err(unsupported_value("pointer device", value))
    }
}

// Geometry.
pub open spec fn point_err(v: JsonValue) -> Option<Seq<char>> {
    first(coord_err(v, "x"@), coord_err(v, "y"@))
}

pub open spec fn point_val(v: JsonValue) -> Point {
    Point { x: coord_val(v, "x"@), y: coord_val(v, "y"@) }
}

pub fn parse_point(value: &JsonValue) -> (r: Result<Point, RpcError>)
    ensures
        parsed(r, point_err(*value), point_val(*value)),
{
    let x = required_f32_field(value, "x")?;
    let y = required_f32_field(value, "y")?;
    Ok(Point { x, y })
}

pub open spec fn size_err(v: JsonValue) -> Option<Seq<char>> {
    first(coord_err(v, "width"@), coord_err(v, "height"@))
}

pub open spec fn size_val(v: JsonValue) -> Size {
    Size { width: coord_val(v, "width"@), height: coord_val(v, "height"@) }
}

pub fn parse_size(value: &JsonValue) -> (r: Result<Size, RpcError>)
    ensures
        parsed(r, size_err(*value), size_val(*value)),
{
    let width = required_f32_field(value, "width")?;
    let height = required_f32_field(value, "height")?;
    Ok(Size { width, height })
}

pub open spec fn rect_err(v: JsonValue) -> Option<Seq<char>> {
    first(
        object_err(v, "origin"@),
        first(
            point_err(object_val(v, "origin"@)),
            first(object_err(v, "size"@), size_err(object_val(v, "size"@))),
        ),
    )
}

pub open spec fn rect_val(v: JsonValue) -> Rect {
    Rect { origin: point_val(object_val(v, "origin"@)), size: size_val(object_val(v, "size"@)) }
}

pub fn parse_rect(value: &JsonValue) -> (r: Result<Rect, RpcError>)
    ensures
        parsed(r, rect_err(*value), rect_val(*value)),
{
    let origin = parse_point(required_object_field(value, "origin")?)?;
    let size = parse_size(required_object_field(value, "size")?)?;
    Ok(Rect { origin, size })
}

pub open spec fn frame_err(v: JsonValue) -> Option<Seq<char>> {
    first(
        string_err(v, "surface_id"@),
        first(
            string_err(v, "surface_instance_id"@),
            first(
                u64_err(v, "revision"@),
                first(
                    u64_err(v, "frame_index"@),
                    first(object_err(v, "viewport"@), rect_err(object_val(v, "viewport"@))),
                ),
            ),
        ),
    )
}

pub open spec fn frame_val(v: JsonValue) -> FrameIdentity {
    FrameIdentity {
        surface_id: string_val(v, "surface_id"@),
        surface_instance_id: string_val(v, "surface_instance_id"@),
        revision: u64_val(v, "revision"@),
        frame_index: u64_val(v, "frame_index"@),
        viewport: rect_val(object_val(v, "viewport"@)),
    }
}

/// A frame identity: surface, surface instance, revision, frame index and viewport.
pub fn parse_frame(value: &JsonValue) -> (r: Result<FrameIdentity, RpcError>)
    ensures
        parsed(r, frame_err(*value), frame_val(*value)),
{
    let surface_id = required_owned_string_field(value, "surface_id")?;
    let surface_instance_id = required_owned_string_field(value, "surface_instance_id")?;
    let revision = required_u64_field(value, "revision")?;
    let frame_index = required_u64_field(value, "frame_index")?;
    let viewport = parse_rect(required_object_field(value, "viewport")?)?;
    Ok(FrameIdentity { surface_id, surface_instance_id, revision, frame_index, viewport })
}

/// The frame under the `frame` member of the tool arguments.
pub fn parse_frame_from_arguments(arguments: &JsonValue) -> (r: Result<FrameIdentity, RpcError>)
    ensures
        parsed(
            r,
            first(object_err(*arguments, "frame"@), frame_err(object_val(*arguments, "frame"@))),
            frame_val(object_val(*arguments, "frame"@)),
        ),
{
    parse_frame(required_object_field(arguments, "frame")?)
}

// Flags: a member that is `true`; anything else, or nothing, reads as `false`.
pub open spec fn flag(v: JsonValue, key: Seq<char>) -> bool {
    match json_get(v, key) {
        Some(x) => json_as_bool(x) == Some(true),
        None => false,
    }
}

fn read_flag(value: &JsonValue, key: &str) -> (r: bool)
    ensures
        r == flag(*value, key@),
{
    match value.get(key) {
        Some(x) => match x.as_bool() {
            Some(b) => b,
            None => false,
        },
        None => false,
    }
}

pub open spec fn modifiers_val(v: Option<JsonValue>) -> Modifiers {
    match v {
        Some(m) => Modifiers {
            shift: flag(m, "shift"@),
            control: flag(m, "control"@),
            alt: flag(m, "alt"@),
            meta: flag(m, "meta"@),
        },
        None => Modifiers { shift: false, control: false, alt: false, meta: false },
    }
}

/// Modifier flags; absent or non-boolean flags are off.
pub fn parse_modifiers(value: Option<&JsonValue>) -> (r: Modifiers)
    ensures
        r == modifiers_val(match value { Some(v) => Some(*v), None => None }),
{
    match value {
        Some(v) => Modifiers {
            shift: read_flag(v, "shift"),
            control: read_flag(v, "control"),
            alt: read_flag(v, "alt"),
            meta: read_flag(v, "meta"),
        },
        None => Modifiers { shift: false, control: false, alt: false, meta: false },
    }
}

pub open spec fn buttons_val(v: Option<JsonValue>) -> PointerButtons {
    match v {
        Some(b) => PointerButtons {
            primary: flag(b, "primary"@),
            secondary: flag(b, "secondary"@),
            auxiliary: flag(b, "auxiliary"@),
        },
        None => PointerButtons { primary: false, secondary: false, auxiliary: false },
    }
}

/// Pressed pointer buttons; absent or non-boolean flags are released.
pub fn parse_pointer_buttons(value: Option<&JsonValue>) -> (r: PointerButtons)
    ensures
        r == buttons_val(match value { Some(v) => Some(*v), None => None }),
{
    match value {
        Some(v) => PointerButtons {
            primary: read_flag(v, "primary"),
            secondary: read_flag(v, "secondary"),
            auxiliary: read_flag(v, "auxiliary"),
        },
        None => PointerButtons { primary: false, secondary: false, auxiliary: false },
    }
}

pub open spec fn buttons_of(button: Option<PointerButton>) -> PointerButtons {
    PointerButtons {
        primary: button == Some(PointerButton::Primary),
        secondary: button == Some(PointerButton::Secondary),
        auxiliary: button == Some(PointerButton::Auxiliary),
    }
}

/// The pressed set that holds exactly the given button.
pub fn pointer_buttons_from_button(button: Option<PointerButton>) -> (r: PointerButtons)
    ensures
        r == buttons_of(button),
{
    let mut buttons = PointerButtons { primary: false, secondary: false, auxiliary: false };
    match button {
        Some(PointerButton::Primary) => buttons.primary = true,
        Some(PointerButton::Secondary) => buttons.secondary = true,
        Some(PointerButton::Auxiliary) => buttons.auxiliary = true,
        None => {},
    }
    buttons
}


// Widget slot addresses.
pub open spec fn all_strings(s: Seq<JsonValue>) -> bool {
    forall|i: int| 0 <= i < s.len() ==> (#[trigger] json_string(s[i])) is Some
}

pub open spec fn strings_of(s: Seq<JsonValue>) -> Seq<String> {
    s.map_values(|x: JsonValue| json_string(x)->0)
}

pub open spec fn slot_json(v: JsonValue) -> JsonValue {
    json_get(v, "target_slot"@)->0
}

pub open spec fn slot_err(v: JsonValue) -> Option<Seq<char>> {
    let sv = slot_json(v);
    if json_get(v, "target_slot"@) is None {
        None
    } else if !json_is_object(sv) {
        Some(must_be("target_slot"@, "an object"@))
    } else {
        first(
            string_err(sv, "widget"@),
            first(
                array_err(sv, "path"@),
                first(
                    if all_strings(array_val(sv, "path"@)) {
                        None
                    } else {
                        Some("field `target_slot.path` must be strings"@)
                    },
                    first(
                        u64_err(sv, "ordinal"@),
                        if u64_val(sv, "ordinal"@) <= usize::MAX {
                            None
                        } else {
                            Some("field `target_slot.ordinal` is too large for this platform"@)
                        },
                    ),
                ),
            ),
        )
    }
}

/// A parsed slot is the one the `target_slot` member describes.
pub open spec fn slot_matches(slot: Option<WidgetSlotAddress>, v: JsonValue) -> bool {
    match slot {
        None => json_get(v, "target_slot"@) is None,
        Some(s) => json_get(v, "target_slot"@) is Some
            && s.widget == string_val(slot_json(v), "widget"@)
            && s.path@ == strings_of(array_val(slot_json(v), "path"@))
            && s.ordinal == u64_val(slot_json(v), "ordinal"@),
    }
}

/// The optional `target_slot` member: a widget, a path of widgets and an ordinal.
pub fn parse_optional_widget_slot_address(value: &JsonValue) -> (r: Result<Option<WidgetSlotAddress>, RpcError>)
    ensures
        match r {
            Ok(slot) => slot_err(*value) is None && slot_matches(slot, *value),
            Err(e) => e.code == INVALID_PARAMS && slot_err(*value) == Some(e.message@),
        },
{
    let slot = match value.get("target_slot") {
        None => return Ok(None),
        Some(slot) => slot,
    };
    if !slot.is_object() {
        return Err(invalid_field("target_slot", "an object"));
    }
    let widget = required_owned_string_field(slot, "widget")?;
    let entries = required_array_field(slot, "path")?;
    let mut path: Vec<String> = Vec::new();
    let mut i: usize = 0;
    while i < entries.len()
        invariant
            i <= entries@.len(),
            json_get(*value, "target_slot"@) == Some(*slot),
            json_is_object(*slot),
            string_err(*slot, "widget"@) is None,
            array_err(*slot, "path"@) is None,
            entries@ == array_val(*slot, "path"@),
            path@ == strings_of(entries@.take(i as int)),
            all_strings(entries@.take(i as int)),
        decreases entries@.len() - i,
    {
        match entries[i].as_string() {
            Some(s) => {
                path.push(s.clone());
            },
            None => {
                assert(json_string(entries@[i as int]) is None);
                assert(!all_strings(entries@));
                return Err(RpcError::invalid_params(owned("field `target_slot.path` must be strings")));
            },
        }
        assert(entries@.take(i + 1) =~= entries@.take(i as int).push(entries@[i as int]));
        i += 1;
    }
    assert(entries@.take(i as int) =~= entries@);
    let ordinal = required_u64_field(slot, "ordinal")?;
    if ordinal > usize::MAX as u64 {
        return Err(RpcError::invalid_params(owned("field `target_slot.ordinal` is too large for this platform")));
    }
    Ok(Some(WidgetSlotAddress { widget, path, ordinal: ordinal as usize }))
}

// Selection ranges.
pub open spec fn range_err(v: JsonValue, field: Seq<char>) -> Option<Seq<char>> {
    match json_get(v, field) {
        None => None,
        Some(x) => if !json_is_object(x) {
            Some(must_be(field, "an object"@))
        } else {
            first(u64_err(x, "anchor"@), u64_err(x, "focus"@))
        },
    }
}

pub open spec fn range_val(v: JsonValue, field: Seq<char>) -> Option<TextSelectionRange> {
    match json_get(v, field) {
        None => None,
        Some(x) => Some(
            TextSelectionRange {
                anchor: u64_val(x, "anchor"@) as usize,
                focus: u64_val(x, "focus"@) as usize,
            },
        ),
    }
}

/// An optional selection range member with `anchor` and `focus` scalar indices.
pub fn optional_text_selection_range(value: &JsonValue, field: &str) -> (r: Result<Option<TextSelectionRange>, RpcError>)
    ensures
        parsed(r, range_err(*value, field@), range_val(*value, field@)),
{
    let range = match value.get(field) {
        None => return Ok(None),
        Some(range) => range,
    };
    if !range.is_object() {
        return Err(invalid_field(field, "an object"));
    }
    let anchor = required_u64_field(range, "anchor")?;
    let focus = required_u64_field(range, "focus")?;
    Ok(Some(TextSelectionRange { anchor: anchor as usize, focus: focus as usize }))
}


// Aliased integer members.
/// Scans alias members in order: each present one must be an integer that
/// fits `usize`, and all present ones must agree; the first present one
/// names the value.
pub open spec fn alias_scan(
    v: JsonValue,
    fields: Seq<Seq<char>>,
    label: Seq<char>,
    seen: Option<(usize, Seq<char>)>,
) -> Result<Option<(usize, Seq<char>)>, Seq<char>>
    decreases fields.len(),
{
    if fields.len() == 0 {
        Ok(seen)
    } else {
        let field = fields[0];
        let rest = fields.drop_first();
        if json_get(v, field) is None {
            alias_scan(v, rest, label, seen)
        } else if opt_u64_err(v, field) is Some {
            Err(opt_u64_err(v, field)->0)
        } else if (opt_u64_val(v, field)->0) > usize::MAX {
            Err(quoted("field `"@, field, "` is too large for usize"@))
        } else {
            let parsed_value = (opt_u64_val(v, field)->0) as usize;
            match seen {
                Some(p) => if p.0 != parsed_value {
                    Err(
                        quoted("conflicting "@, label, " aliases `"@) + p.1 + "` and `"@ + field
                            + "`"@,
                    )
                } else {
                    alias_scan(v, rest, label, seen)
                },
                None => alias_scan(v, rest, label, Some((parsed_value, field))),
            }
        }
    }
}

pub open spec fn alias_names(fields: Seq<&str>) -> Seq<Seq<char>> {
    fields.map_values(|f: &str| f@)
}

/// An integer given under any of several alias names; aliases that are
/// present must agree.
pub fn optional_usize_alias_field(value: &JsonValue, fields: &[&str], label: &str) -> (r: Result<Option<usize>, RpcError>)
    ensures
        match alias_scan(*value, alias_names(fields@), label@, None) {
            Ok(seen) => r == Ok::<Option<usize>, RpcError>(
                match seen {
                    Some(p) => Some(p.0),
                    None => None,
                },
            ),
            Err(m) => r matches Err(e) && e.code == INVALID_PARAMS && e.message@ == m,
        },
{
    let mut seen_value: Option<usize> = None;
    let mut seen_field: &str = "";
    let ghost names = alias_names(fields@);
    let mut i: usize = 0;
    assert(names.skip(0) =~= names);
    while i < fields.len()
        invariant
            i <= fields@.len(),
            names == alias_names(fields@),
            alias_scan(*value, names, label@, None) == alias_scan(
                *value,
                names.skip(i as int),
                label@,
                match seen_value {
                    Some(x) => Some((x, seen_field@)),
                    None => None,
                },
            ),
        decreases fields@.len() - i,
    {
        let field = fields[i];
        let ghost seen_model = match seen_value {
            Some(x) => Some((x, seen_field@)),
            None => None::<(usize, Seq<char>)>,
        };
        assert(names.skip(i as int)[0] == field@);
        assert(names.skip(i as int).drop_first() =~= names.skip(i + 1));
        if value.get(field).is_some() {
            let raw = match optional_u64_field(value, field)? {
                Some(raw) => raw,
                None => 0,
            };
            if raw > usize::MAX as u64 {
                return Err(RpcError::invalid_params(concat3("field `", field, "` is too large for usize")));
            }
            let parsed_value = raw as usize;
            match seen_value {
                Some(existing) => {
                    if existing != parsed_value {
                        let mut m = concat3("conflicting ", label, " aliases `");
                        m.append(seen_field);
                        m.append("` and `");
                        m.append(field);
                        m.append("`");
                        return Err(RpcError::invalid_params(m));
                    }
                },
                None => {
                    seen_value = Some(parsed_value);
                    seen_field = field;
                },
            }
        }
        i += 1;
    }
    assert(names.skip(i as int).len() == 0);
    Ok(seen_value)
}

pub open spec fn probe_kind_named(s: Seq<char>) -> Option<ProbeKind> {
    if s == "topology"@ || s == "Topology"@ {
        Some(ProbeKind::Topology)
    } else if s == "state"@ || s == "State"@ {
        Some(ProbeKind::State)
    } else if s == "event"@ || s == "Event"@ {
        Some(ProbeKind::Event)
    } else if s == "change"@ || s == "Change"@ {
        Some(ProbeKind::Change)
    } else if s == "diagnostics"@ || s == "Diagnostics"@ {
        Some(ProbeKind::Diagnostics)
    } else if s == "paint"@ || s == "Paint"@ {
        Some(ProbeKind::Paint)
    } else if s == "semantics"@ || s == "Semantics"@ {
        Some(ProbeKind::Semantics)
    } else if s == "surface"@ || s == "Surface"@ {
        Some(ProbeKind::Surface)
    } else if s == "layout_intent"@ || s == "layoutIntent"@ || s == "LayoutIntent"@ {
        Some(ProbeKind::LayoutIntent)
    } else if s == "view_definition"@ || s == "viewDefinition"@ || s == "ViewDefinition"@ {
        Some(ProbeKind::ViewDefinition)
    } else if s == "render_packet"@ || s == "renderPacket"@ || s == "RenderPacket"@ {
        Some(ProbeKind::RenderPacket)
    } else if s == "render_evidence"@ || s == "renderEvidence"@ || s == "RenderEvidence"@ {
        Some(ProbeKind::RenderEvidence)
    } else if s == "dispatch_graph"@ || s == "dispatchGraph"@ || s == "DispatchGraph"@ {
        Some(ProbeKind::DispatchGraph)
    } else {
        None
    }
}

pub fn parse_probe_kind(kind: &str) -> (r: Result<ProbeKind, RpcError>)
    ensures
        parsed(r, word_err(probe_kind_named(kind@), "probe kind"@, kind@), probe_kind_named(kind@)->0),
{
    if str_eq(kind, "topology") || str_eq(kind, "Topology") {
        Ok(ProbeKind::Topology)
    } else if str_eq(kind, "state") || str_eq(kind, "State") {
        Ok(ProbeKind::State)
    } else if str_eq(kind, "event") || str_eq(kind, "Event") {
        Ok(ProbeKind::Event)
    } else if str_eq(kind, "change") || str_eq(kind, "Change") {
        Ok(ProbeKind::Change)
    } else if str_eq(kind, "diagnostics") || str_eq(kind, "Diagnostics") {
        Ok(ProbeKind::Diagnostics)
    } else if str_eq(kind, "paint") || str_eq(kind, "Paint") {
        Ok(ProbeKind::Paint)
    } else if str_eq(kind, "semantics") || str_eq(kind, "Semantics") {
        Ok(ProbeKind::Semantics)
    } else if str_eq(kind, "surface") || str_eq(kind, "Surface") {
        Ok(ProbeKind::Surface)
    } else if one_of3(kind, "layout_intent", "layoutIntent", "LayoutIntent") {
        Ok(ProbeKind::LayoutIntent)
    } else if one_of3(kind, "view_definition", "viewDefinition", "ViewDefinition") {
        Ok(ProbeKind::ViewDefinition)
    } else if one_of3(kind, "render_packet", "renderPacket", "RenderPacket") {
        Ok(ProbeKind::RenderPacket)
    } else if one_of3(kind, "render_evidence", "renderEvidence", "RenderEvidence") {
        Ok(ProbeKind::RenderEvidence)
    } else if one_of3(kind, "dispatch_graph", "dispatchGraph", "DispatchGraph") {
        Ok(ProbeKind::DispatchGraph)
    } else {
        Err(unsupported_value("probe kind", kind))
    }
}

/// The kinds of a probe request, read in order up to the first bad entry.
pub open spec fn probe_kinds_scan(s: Seq<JsonValue>) -> Result<Seq<ProbeKind>, Seq<char>>
    decreases s.len(),
{
    if s.len() == 0 {
        Ok(Seq::empty())
    } else {
        match probe_kinds_scan(s.drop_last()) {
            Err(m) => Err(m),
            Ok(kinds) => match json_string(s.last()) {
                None => Err("probe kinds must be strings"@),
                Some(k) => match probe_kind_named(k@) {
                    None => Err(unsupported("probe kind"@, k@)),
                    Some(kind) => Ok(kinds.push(kind)),
                },
            },
        }
    }
}

proof fn lemma_probe_kinds_err_sticks(s: Seq<JsonValue>, n: int)
    requires
        0 <= n <= s.len(),
        probe_kinds_scan(s.take(n)) is Err,
    ensures
        probe_kinds_scan(s) == probe_kinds_scan(s.take(n)),
    decreases s.len() - n,
{
    if n < s.len() {
        assert(s.take(n + 1).drop_last() =~= s.take(n));
        assert(probe_kinds_scan(s.take(n + 1)) == probe_kinds_scan(s.take(n)));
        lemma_probe_kinds_err_sticks(s, n + 1);
    } else {
        assert(s.take(n) =~= s);
    }
}

pub open spec fn event_limit_fields() -> Seq<Seq<char>> {
    seq!["event_trace_limit"@, "eventTraceLimit"@, "event_limit"@, "eventLimit"@]
}

pub open spec fn probe_request_err(v: JsonValue) -> Option<Seq<char>> {
    first(
        opt_string_err(v, "target"@),
        first(
            match alias_scan(v, event_limit_fields(), "event trace limit"@, None) {
                Err(m) => Some(m),
                Ok(_) => None,
            },
            first(
                array_err(v, "kinds"@),
                match probe_kinds_scan(array_val(v, "kinds"@)) {
                    Err(m) => Some(m),
                    Ok(_) => None,
                },
            ),
        ),
    )
}

/// A parsed probe request is the one the arguments describe.
pub open spec fn probe_request_matches(p: ProbeRequest, v: JsonValue) -> bool {
    &&& p.target == opt_string_val(v, "target"@)
    &&& p.event_trace_limit == match alias_scan(v, event_limit_fields(), "event trace limit"@, None) {
        Ok(Some(x)) => Some(x.0),
        _ => None,
    }
    &&& probe_kinds_scan(array_val(v, "kinds"@)) == Ok::<Seq<ProbeKind>, Seq<char>>(p.kinds@)
}

/// A probe request: an optional target, an optional event trace limit under
/// any of its alias names, and the probe kinds asked for.
pub fn parse_probe_request(arguments: &JsonValue) -> (r: Result<ProbeRequest, RpcError>)
    ensures
        match r {
            Ok(p) => probe_request_err(*arguments) is None && probe_request_matches(p, *arguments),
            Err(e) => e.code == INVALID_PARAMS && probe_request_err(*arguments) == Some(e.message@),
        },
{
    let target = optional_owned_string_field(arguments, "target")?;
    let fields: Vec<&str> = vec!["event_trace_limit", "eventTraceLimit", "event_limit", "eventLimit"];
    proof {
        reveal_strlit("event_trace_limit");
        reveal_strlit("eventTraceLimit");
        reveal_strlit("event_limit");
        reveal_strlit("eventLimit");
        assert(alias_names(fields@) =~= event_limit_fields());
    }
    let event_trace_limit = optional_usize_alias_field(arguments, fields.as_slice(), "event trace limit")?;
    let values = required_array_field(arguments, "kinds")?;
    let mut kinds: Vec<ProbeKind> = Vec::new();
    let mut i: usize = 0;
    assert(values@.take(0) =~= Seq::<JsonValue>::empty());
    while i < values.len()
        invariant
            i <= values@.len(),
            opt_string_err(*arguments, "target"@) is None,
            alias_scan(*arguments, event_limit_fields(), "event trace limit"@, None) is Ok,
            array_err(*arguments, "kinds"@) is None,
            values@ == array_val(*arguments, "kinds"@),
            probe_kinds_scan(values@.take(i as int)) == Ok::<Seq<ProbeKind>, Seq<char>>(kinds@),
        decreases values@.len() - i,
    {
        assert(values@.take(i + 1).drop_last() =~= values@.take(i as int));
        assert(values@.take(i + 1).last() == values@[i as int]);
        let kind = match values[i].as_str() {
            Some(k) => k,
            None => {
                proof { lemma_probe_kinds_err_sticks(values@, i + 1); }
                return Err(RpcError::invalid_params(owned("probe kinds must be strings")));
            },
        };
        let parsed_kind = match parse_probe_kind(kind) {
            Ok(k) => k,
            Err(e) => {
                proof { lemma_probe_kinds_err_sticks(values@, i + 1); }
                return Err(e);
            },
        };
        kinds.push(parsed_kind);
        i += 1;
    }
    assert(values@.take(i as int) =~= values@);
    Ok(ProbeRequest { target, kinds, event_trace_limit })
}

} // verus!
