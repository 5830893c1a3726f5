//! Script-visible operations on `MouseEventKind`.
use crate::events::{MouseButton, MouseEventKind};
use vstd::prelude::*;

verus! {

/// The textual form of a mouse button.
pub open spec fn spec_mouse_button_text(b: MouseButton) -> Seq<char> {
    match b {
        MouseButton::Left => "Left"@,
        MouseButton::Right => "Right"@,
        MouseButton::Middle => "Middle"@,
    }
}

/// The compact textual form of a mouse event kind: the variant name, with
/// the carried button in parentheses where there is one.
pub open spec fn spec_mouse_event_kind_text(k: MouseEventKind) -> Seq<char> {
    match k {
        MouseEventKind::Down(b) => "Down("@ + spec_mouse_button_text(b) + ")"@,
        MouseEventKind::Up(b) => "Up("@ + spec_mouse_button_text(b) + ")"@,
        MouseEventKind::Drag(b) => "Drag("@ + spec_mouse_button_text(b) + ")"@,
        MouseEventKind::Moved => "Moved"@,
        MouseEventKind::ScrollDown => "ScrollDown"@,
        MouseEventKind::ScrollUp => "ScrollUp"@,
    }
}

/// The pretty textual form: variants carrying a button spread it over its
/// own indented line; bare variants read as in the compact form.
pub open spec fn spec_mouse_event_kind_pretty(k: MouseEventKind) -> Seq<char> {
    match k {
        MouseEventKind::Down(b) => "Down(\n    "@ + spec_mouse_button_text(b) + ",\n)"@,
        MouseEventKind::Up(b) => "Up(\n    "@ + spec_mouse_button_text(b) + ",\n)"@,
        MouseEventKind::Drag(b) => "Drag(\n    "@ + spec_mouse_button_text(b) + ",\n)"@,
        MouseEventKind::Moved => "Moved"@,
        MouseEventKind::ScrollDown => "ScrollDown"@,
        MouseEventKind::ScrollUp => "ScrollUp"@,
    }
}

/// Append the textual form of a mouse button to `s`.
pub fn push_mouse_button(s: &mut String, b: MouseButton)
    ensures
        final(s)@ == old(s)@ + spec_mouse_button_text(b),
{
    match b {
        MouseButton::Left => s.append("Left"),
        MouseButton::Right => s.append("Right"),
        MouseButton::Middle => s.append("Middle"),
    }
}

/// Append the compact textual form of a mouse event kind to `s`.
pub fn push_mouse_event_kind(s: &mut String, k: MouseEventKind)
    ensures
        final(s)@ == old(s)@ + spec_mouse_event_kind_text(k),
{
    match k {
        MouseEventKind::Down(b) => {
            s.append("Down(");
            push_mouse_button(s, b);
            s.append(")");
            assert(s@ =~= old(s)@ + spec_mouse_event_kind_text(k));
        },
        MouseEventKind::Up(b) => {
            s.append("Up(");
            push_mouse_button(s, b);
            s.append(")");
            assert(s@ =~= old(s)@ + spec_mouse_event_kind_text(k));
        },
        MouseEventKind::Drag(b) => {
            s.append("Drag(");
            push_mouse_button(s, b);
            s.append(")");
            assert(s@ =~= old(s)@ + spec_mouse_event_kind_text(k));
        },
        MouseEventKind::Moved => s.append("Moved"),
        MouseEventKind::ScrollDown => s.append("ScrollDown"),
        MouseEventKind::ScrollUp => s.append("ScrollUp"),
    }
}

/// The compact rendering, for diagnostics inside scripts.
pub fn to_string(kind: &mut MouseEventKind) -> (r: String)
    ensures
        *final(kind) == *old(kind),
        r@ == spec_mouse_event_kind_text(*old(kind)),
{
    let mut s = String::new();
    push_mouse_event_kind(&mut s, *kind);
    assert(s@ =~= spec_mouse_event_kind_text(*old(kind)));
    s
}

/// The pretty rendering, for diagnostics inside scripts.
pub fn to_debug(kind: &mut MouseEventKind) -> (r: String)
    ensures
        *final(kind) == *old(kind),
        r@ == spec_mouse_event_kind_pretty(*old(kind)),
{
    let mut s = String::new();
    match *kind {
        MouseEventKind::Down(b) => {
            s.append("Down(\n    ");
            push_mouse_button(&mut s, b);
            s.append(",\n)");
        },
        MouseEventKind::Up(b) => {
            s.append("Up(\n    ");
            push_mouse_button(&mut s, b);
            s.append(",\n)");
        },
        MouseEventKind::Drag(b) => {
            s.append("Drag(\n    ");
            push_mouse_button(&mut s, b);
            s.append(",\n)");
        },
        MouseEventKind::Moved => s.append("Moved"),
        MouseEventKind::ScrollDown => s.append("ScrollDown"),
        MouseEventKind::ScrollUp => s.append("ScrollUp"),
    }
    assert(s@ =~= spec_mouse_event_kind_pretty(*old(kind)));
    s
}

} // verus!
