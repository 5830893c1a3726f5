//! Script-visible operations on `KeyEvent` and the text of `KeyCode`.
use crate::events::{KeyCode, KeyEvent, KeyModifiers};
use crate::exported::key_modifiers::{push_key_modifiers, spec_key_modifiers_text};
use crate::text::{push_char, push_decimal_u64, spec_decimal};
use vstd::prelude::*;

verus! {

/// The textual form of a key code: the variant name, with the function-key
/// index or the character where the variant carries one.
pub open spec fn spec_key_code_text(c: KeyCode) -> Seq<char> {
    match c {
        KeyCode::Backspace => "Backspace"@,
        KeyCode::Enter => "Enter"@,
        KeyCode::Left => "Left"@,
        KeyCode::Right => "Right"@,
        KeyCode::Up => "Up"@,
        KeyCode::Down => "Down"@,
        KeyCode::Home => "Home"@,
        KeyCode::End => "End"@,
        KeyCode::PageUp => "PageUp"@,
        KeyCode::PageDown => "PageDown"@,
        KeyCode::Tab => "Tab"@,
        KeyCode::BackTab => "BackTab"@,
        KeyCode::Delete => "Delete"@,
        KeyCode::Insert => "Insert"@,
        KeyCode::F(n) => "F("@ + spec_decimal(n as int) + ")"@,
        KeyCode::Char(ch) => "Char('"@ + seq![ch] + "')"@,
        KeyCode::Null => "Null"@,
        KeyCode::Esc => "Esc"@,
    }
}

/// The compact textual form of a key event.
pub open spec fn spec_key_event_text(e: KeyEvent) -> Seq<char> {
    "KeyEvent { code: "@ + spec_key_code_text(e.code) + ", modifiers: "@ + spec_key_modifiers_text(
        e.modifiers,
    ) + " }"@
}

/// The pretty textual form: one field per indented line, each field in its
/// compact form.
pub open spec fn spec_key_event_pretty(e: KeyEvent) -> Seq<char> {
    "KeyEvent {\n    code: "@ + spec_key_code_text(e.code) + ",\n    modifiers: "@
        + spec_key_modifiers_text(e.modifiers) + ",\n}"@
}

/// Append the textual form of a key code to `s`.
pub fn push_key_code(s: &mut String, c: KeyCode)
    ensures
        final(s)@ == old(s)@ + spec_key_code_text(c),
{
    match c {
        KeyCode::Backspace => s.append("Backspace"),
        KeyCode::Enter => s.append("Enter"),
        KeyCode::Left => s.append("Left"),
        KeyCode::Right => s.append("Right"),
        KeyCode::Up => s.append("Up"),
        KeyCode::Down => s.append("Down"),
        KeyCode::Home => s.append("Home"),
        KeyCode::End => s.append("End"),
        KeyCode::PageUp => s.append("PageUp"),
        KeyCode::PageDown => s.append("PageDown"),
        KeyCode::Tab => s.append("Tab"),
        KeyCode::BackTab => s.append("BackTab"),
        KeyCode::Delete => s.append("Delete"),
        KeyCode::Insert => s.append("Insert"),
        KeyCode::F(n) => {
            s.append("F(");
            push_decimal_u64(s, n as u64);
            s.append(")");
            assert(s@ =~= old(s)@ + spec_key_code_text(c));
        },
        KeyCode::Char(ch) => {
            s.append("Char('");
            push_char(s, ch);
            s.append("')");
            assert(s@ =~= old(s)@ + spec_key_code_text(c));
        },
        KeyCode::Null => s.append("Null"),
        KeyCode::Esc => s.append("Esc"),
    }
}

/// The key code carried by this event.
pub fn get_code(key_event: &mut KeyEvent) -> (r: KeyCode)
    ensures
        *final(key_event) == *old(key_event),
        r == old(key_event).code,
{
    key_event.code
}

/// The modifier set carried by this event.
pub fn get_modifiers(key_event: &mut KeyEvent) -> (r: KeyModifiers)
    ensures
        *final(key_event) == *old(key_event),
        r == old(key_event).modifiers,
{
    key_event.modifiers
}

/// The compact rendering, for diagnostics inside scripts.
pub fn to_string(key_event: &mut KeyEvent) -> (r: String)
    ensures
        *final(key_event) == *old(key_event),
        r@ == spec_key_event_text(*old(key_event)),
{
    let mut s = String::new();
    s.append("KeyEvent { code: ");
    push_key_code(&mut s, key_event.code);
    s.append(", modifiers: ");
    push_key_modifiers(&mut s, key_event.modifiers);
    s.append(" }");
    assert(s@ =~= spec_key_event_text(*old(key_event)));
    s
}

/// The pretty rendering, for diagnostics inside scripts.
pub fn to_debug(key_event: &mut KeyEvent) -> (r: String)
    ensures
        *final(key_event) == *old(key_event),
        r@ == spec_key_event_pretty(*old(key_event)),
{
    let mut s = String::new();
    s.append("KeyEvent {\n    code: ");
    push_key_code(&mut s, key_event.code);
    s.append(",\n    modifiers: ");
    push_key_modifiers(&mut s, key_event.modifiers);
    s.append(",\n}");
    assert(s@ =~= spec_key_event_pretty(*old(key_event)));
    s
}

} // verus!
