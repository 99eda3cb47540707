use vstd::prelude::*;
use crate::frame::{Coord, Point, Rect};

verus! {

/// A widget slot: the widget, the path of widgets leading to it, and its ordinal.
#[derive(Clone, Debug, PartialEq, Eq)]
pub struct WidgetSlotAddress {
    pub widget: String,
    pub path: Vec<String>,
    pub ordinal: usize,
}

#[derive(Clone, Copy, Debug, PartialEq, Eq, Structural, Default)]
pub struct Modifiers {
    pub shift: bool,
    pub control: bool,
    pub alt: bool,
    pub meta: bool,
}

#[derive(Clone, Copy, Debug, PartialEq, Eq, Structural, Default)]
pub struct PointerButtons {
    pub primary: bool,
    pub secondary: bool,
    pub auxiliary: bool,
}

#[derive(Clone, Copy, Debug, PartialEq, Eq, Structural)]
pub enum PointerButton {
    Primary,
    Secondary,
    Auxiliary,
}

#[derive(Clone, Copy, Debug, PartialEq, Eq, Structural)]
pub enum PointerDeviceKind {
    Unknown,
    Mouse,
    Touch,
    Pen,
}

#[derive(Clone, Copy, Debug, PartialEq, Eq, Structural)]
pub enum PointerEventKind {
    Move,
    Press,
    Release,
    Enter,
    Leave,
    Cancel,
}

#[derive(Clone, Copy, Debug, PartialEq, Eq, Structural)]
pub enum KeyEventKind {
    Press,
    Release,
}

#[derive(Clone, Copy, Debug, PartialEq, Eq, Structural)]
pub enum KeyLocation {
    Standard,
    Left,
    Right,
    Numpad,
    Unknown,
}

#[derive(Clone, Copy, Debug, PartialEq, Eq, Structural)]
pub enum TextEditKind {
    InsertText,
    DeleteBackward,
    DeleteForward,
    MoveCaret,
    ReplaceSelection,
    ReplaceBuffer,
    Unknown,
}

#[derive(Clone, Copy, Debug, PartialEq, Eq, Structural)]
pub enum TextCompositionPhase {
    Start,
    Update,
    Commit,
    End,
    Cancel,
}

/// A selection or caret range in Unicode scalar indices.
#[derive(Clone, Copy, Debug, PartialEq, Eq, Structural)]
pub struct TextSelectionRange {
    pub anchor: usize,
    pub focus: usize,
}

#[derive(Clone, Copy, Debug, PartialEq, Eq, Structural)]
pub struct PointerDetails {
    pub pointer_id: Option<u64>,
    pub device: PointerDeviceKind,
    pub buttons: PointerButtons,
    pub modifiers: Modifiers,
    pub pressure: Option<Coord>,
    pub tilt_x: Option<Coord>,
    pub tilt_y: Option<Coord>,
    pub twist: Option<Coord>,
}

#[derive(Clone, Debug, PartialEq, Eq)]
pub struct KeyboardDetails {
    pub logical_key: Option<String>,
    pub physical_key: Option<String>,
    pub text: Option<String>,
    pub repeat: bool,
    pub location: KeyLocation,
}

#[derive(Clone, Debug, PartialEq, Eq)]
pub struct CommandEvent {
    pub target: String,
    pub target_slot: Option<WidgetSlotAddress>,
    pub command: String,
    pub payload_ref: Option<String>,
    pub source: Option<String>,
}

#[derive(Clone, Debug, PartialEq, Eq)]
pub struct TextInputEvent {
    pub target: String,
    pub target_slot: Option<WidgetSlotAddress>,
    pub text: String,
}

#[derive(Clone, Debug, PartialEq, Eq)]
pub struct WheelEvent {
    pub target: String,
    pub target_slot: Option<WidgetSlotAddress>,
    pub region_id: Option<String>,
    pub delta_x: Coord,
    pub delta_y: Coord,
}

#[derive(Clone, Debug, PartialEq, Eq)]
pub struct FocusEvent {
    pub target: String,
    pub target_slot: Option<WidgetSlotAddress>,
    pub focused: bool,
}

#[derive(Clone, Debug, PartialEq, Eq)]
pub struct KeyboardEvent {
    pub target: String,
    pub target_slot: Option<WidgetSlotAddress>,
    pub key: String,
    pub kind: KeyEventKind,
    pub modifiers: Modifiers,
    pub details: KeyboardDetails,
}

#[derive(Clone, Debug, PartialEq, Eq)]
pub struct PointerEvent {
    pub target: String,
    pub target_slot: Option<WidgetSlotAddress>,
    pub position: Point,
    pub target_bounds: Option<Rect>,
    pub kind: PointerEventKind,
    pub button: Option<PointerButton>,
    pub details: PointerDetails,
}

#[derive(Clone, Debug, PartialEq, Eq)]
pub struct TextEditEvent {
    pub target: String,
    pub target_slot: Option<WidgetSlotAddress>,
    pub kind: TextEditKind,
    pub text: Option<String>,
    pub selection_before: Option<TextSelectionRange>,
    pub selection_after: Option<TextSelectionRange>,
}

#[derive(Clone, Debug, PartialEq, Eq)]
pub struct TextCompositionEvent {
    pub target: String,
    pub target_slot: Option<WidgetSlotAddress>,
    pub phase: TextCompositionPhase,
    pub preedit_text: String,
    pub cursor_range: Option<TextSelectionRange>,
}

/// An input event addressed to a declared widget target.
#[derive(Clone, Debug, PartialEq, Eq)]
pub enum InputEvent {
    Pointer(PointerEvent),
    Keyboard(KeyboardEvent),
    Text(TextInputEvent),
    TextEdit(TextEditEvent),
    TextComposition(TextCompositionEvent),
    Wheel(WheelEvent),
    Focus(FocusEvent),
    Command(CommandEvent),
}

pub open spec fn event_target(e: InputEvent) -> String {
    match e {
        InputEvent::Pointer(p) => p.target,
        InputEvent::Keyboard(k) => k.target,
        InputEvent::Text(t) => t.target,
        InputEvent::TextEdit(t) => t.target,
        InputEvent::TextComposition(t) => t.target,
        InputEvent::Wheel(w) => w.target,
        InputEvent::Focus(f) => f.target,
        InputEvent::Command(c) => c.target,
    }
}

impl InputEvent {
    /// The widget the event is addressed to.
    pub fn target(&self) -> (r: &String)
        ensures
            *r == event_target(*self),
    {
        match self {
            InputEvent::Pointer(p) => &p.target,
            InputEvent::Keyboard(k) => &k.target,
            InputEvent::Text(t) => &t.target,
            InputEvent::TextEdit(t) => &t.target,
            InputEvent::TextComposition(t) => &t.target,
            InputEvent::Wheel(w) => &w.target,
            InputEvent::Focus(f) => &f.target,
            InputEvent::Command(c) => &c.target,
        }
    }
}

} // verus!
