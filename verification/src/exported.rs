//! Type bridge: the operations on event-model types that are exposed,
//! identically for every plugin, to the embedded scripting engine — read-only
//! field getters plus a compact and a pretty textual rendering per type.
//!
//! Each submodule carries the operation set for one exposed type. The
//! registration of these operations with the engine lives with the plugin
//! runtime; everything here is pure.
pub mod key_event;
pub mod key_modifiers;
pub mod mouse_event;
pub mod mouse_event_kind;
