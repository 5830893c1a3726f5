//! The native Windows provider. The native clipboard calls themselves are
//! platform I/O and live with the caller; fixed here is which requests
//! reach them at all: Windows has no primary selection, so a Selection
//! read yields the empty string and a Selection write is a silent no-op.
use crate::clipboard::ClipboardType;
use vstd::prelude::*;

verus! {

#[derive(Clone, Copy, Debug, Default, PartialEq, Eq, Structural)]
pub struct WindowsProvider;

impl WindowsProvider {
    pub fn name(&self) -> (r: String)
        ensures
            r@ == "clipboard-win"@,
    {
        String::from_str("clipboard-win")
    }

    /// Whether a request of this type reaches the native clipboard at all:
    /// only the system clipboard does. For the Selection, the caller owes
    /// the empty string on a read and a silent no-op on a write.
    pub fn uses_native_clipboard(&self, clipboard_type: ClipboardType) -> (r: bool)
        ensures
            r == (clipboard_type == ClipboardType::Clipboard),
    {
        match clipboard_type {
            ClipboardType::Clipboard => true,
            ClipboardType::Selection => false,
        }
    }
}

} // verus!
