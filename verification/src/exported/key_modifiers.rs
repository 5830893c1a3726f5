//! Script-visible operations on `KeyModifiers`.
use crate::events::KeyModifiers;
use crate::text::{push_bool, spec_bool_str};
use vstd::prelude::*;

verus! {

/// The compact textual form of a modifier set: all three flags on one line.
pub open spec fn spec_key_modifiers_text(m: KeyModifiers) -> Seq<char> {
    "KeyModifiers { shift: "@ + spec_bool_str(m.shift) + ", control: "@ + spec_bool_str(m.control)
        + ", alt: "@ + spec_bool_str(m.alt) + " }"@
}

/// The pretty textual form: one flag per indented line.
pub open spec fn spec_key_modifiers_pretty(m: KeyModifiers) -> Seq<char> {
    "KeyModifiers {\n    shift: "@ + spec_bool_str(m.shift) + ",\n    control: "@ + spec_bool_str(
        m.control,
    ) + ",\n    alt: "@ + spec_bool_str(m.alt) + ",\n}"@
}

/// Append the compact textual form of a modifier set to `s`.
pub fn push_key_modifiers(s: &mut String, m: KeyModifiers)
    ensures
        final(s)@ == old(s)@ + spec_key_modifiers_text(m),
{
    s.append("KeyModifiers { shift: ");
    push_bool(s, m.shift);
    s.append(", control: ");
    push_bool(s, m.control);
    s.append(", alt: ");
    push_bool(s, m.alt);
    s.append(" }");
    assert(s@ =~= old(s)@ + spec_key_modifiers_text(m));
}

/// Whether shift is held in this modifier set.
pub fn get_shift(modifiers: &mut KeyModifiers) -> (r: bool)
    ensures
        *final(modifiers) == *old(modifiers),
        r == old(modifiers).shift,
{
    modifiers.shift
}

/// The compact rendering, for diagnostics inside scripts.
pub fn to_string(modifiers: &mut KeyModifiers) -> (r: String)
    ensures
        *final(modifiers) == *old(modifiers),
        r@ == spec_key_modifiers_text(*old(modifiers)),
{
    let mut s = String::new();
    push_key_modifiers(&mut s, *modifiers);
    assert(s@ =~= spec_key_modifiers_text(*old(modifiers)));
    s
}

/// The pretty rendering, for diagnostics inside scripts.
pub fn to_debug(modifiers: &mut KeyModifiers) -> (r: String)
    ensures
        *final(modifiers) == *old(modifiers),
        r@ == spec_key_modifiers_pretty(*old(modifiers)),
{
    let mut s = String::new();
    s.append("KeyModifiers {\n    shift: ");
    push_bool(&mut s, modifiers.shift);
    s.append(",\n    control: ");
    push_bool(&mut s, modifiers.control);
    s.append(",\n    alt: ");
    push_bool(&mut s, modifiers.alt);
    s.append(",\n}");
    assert(s@ =~= spec_key_modifiers_pretty(*old(modifiers)));
    s
}

} // verus!
