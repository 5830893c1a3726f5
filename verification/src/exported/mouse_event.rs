//! Script-visible operations on `MouseEvent`.
//!
//! Coordinates are exposed to scripts widened to 64-bit signed integers,
//! a lossless upcast from their unsigned 16-bit host range.
use crate::events::{KeyModifiers, MouseEvent, MouseEventKind};
use crate::exported::key_modifiers::{push_key_modifiers, spec_key_modifiers_text};
use crate::exported::mouse_event_kind::{push_mouse_event_kind, spec_mouse_event_kind_text};
use crate::text::{push_decimal_u64, spec_decimal};
use vstd::prelude::*;

verus! {

/// The compact textual form of a mouse event.
pub open spec fn spec_mouse_event_text(e: MouseEvent) -> Seq<char> {
    "MouseEvent { kind: "@ + spec_mouse_event_kind_text(e.kind) + ", column: "@ + spec_decimal(
        e.column as int,
    ) + ", row: "@ + spec_decimal(e.row as int) + ", modifiers: "@ + spec_key_modifiers_text(
        e.modifiers,
    ) + " }"@
}

/// The pretty textual form: one field per indented line, each field in its
/// compact form.
pub open spec fn spec_mouse_event_pretty(e: MouseEvent) -> Seq<char> {
    "MouseEvent {\n    kind: "@ + spec_mouse_event_kind_text(e.kind) + ",\n    column: "@
        + spec_decimal(e.column as int) + ",\n    row: "@ + spec_decimal(e.row as int)
        + ",\n    modifiers: "@ + spec_key_modifiers_text(e.modifiers) + ",\n}"@
}

/// The kind of mouse event, with the carried button where there is one.
pub fn get_kind(event: &mut MouseEvent) -> (r: MouseEventKind)
    ensures
        *final(event) == *old(event),
        r == old(event).kind,
{
    event.kind
}

/// The column, widened losslessly to a 64-bit signed integer.
pub fn get_column(event: &mut MouseEvent) -> (r: i64)
    ensures
        *final(event) == *old(event),
        r == old(event).column as i64,
{
    event.column as i64
}

/// The row, widened losslessly to a 64-bit signed integer.
pub fn get_row(event: &mut MouseEvent) -> (r: i64)
    ensures
        *final(event) == *old(event),
        r == old(event).row as i64,
{
    event.row as i64
}

/// The modifier set carried by this event.
pub fn get_modifiers(event: &mut MouseEvent) -> (r: KeyModifiers)
    ensures
        *final(event) == *old(event),
        r == old(event).modifiers,
{
    event.modifiers
}

/// The compact rendering, for diagnostics inside scripts.
pub fn to_string(event: &mut MouseEvent) -> (r: String)
    ensures
        *final(event) == *old(event),
        r@ == spec_mouse_event_text(*old(event)),
{
    let mut s = String::new();
    s.append("MouseEvent { kind: ");
    push_mouse_event_kind(&mut s, event.kind);
    s.append(", column: ");
    push_decimal_u64(&mut s, event.column as u64);
    s.append(", row: ");
    push_decimal_u64(&mut s, event.row as u64);
    s.append(", modifiers: ");
    push_key_modifiers(&mut s, event.modifiers);
    s.append(" }");
    assert(s@ =~= spec_mouse_event_text(*old(event)));
    s
}

/// The pretty rendering, for diagnostics inside scripts.
pub fn to_debug(event: &mut MouseEvent) -> (r: String)
    ensures
        *final(event) == *old(event),
        r@ == spec_mouse_event_pretty(*old(event)),
{
    let mut s = String::new();
    s.append("MouseEvent {\n    kind: ");
    push_mouse_event_kind(&mut s, event.kind);
    s.append(",\n    column: ");
    push_decimal_u64(&mut s, event.column as u64);
    s.append(",\n    row: ");
    push_decimal_u64(&mut s, event.row as u64);
    s.append(",\n    modifiers: ");
    push_key_modifiers(&mut s, event.modifiers);
    s.append(",\n}");
    assert(s@ =~= spec_mouse_event_pretty(*old(event)));
    s
}

} // verus!
