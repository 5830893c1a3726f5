//! The fallback provider: no native clipboard at all; yanking and pasting
//! stay internal, held in two in-memory buffers.
use crate::clipboard::{other_type, ClipboardError, ClipboardProvider, ClipboardType};
use vstd::prelude::*;

verus! {

#[derive(Debug)]
pub struct FallbackProvider {
    buf: String,
    primary_buf: String,
}

impl FallbackProvider {
    /// What this provider holds for the given clipboard.
    pub closed spec fn stored(&self, clipboard_type: ClipboardType) -> Seq<char> {
        match clipboard_type {
            ClipboardType::Clipboard => self.buf@,
            ClipboardType::Selection => self.primary_buf@,
        }
    }

    pub fn new() -> (r: Self)
        ensures
            r.stored(ClipboardType::Clipboard) == Seq::<char>::empty(),
            r.stored(ClipboardType::Selection) == Seq::<char>::empty(),
    {
        FallbackProvider { buf: String::new(), primary_buf: String::new() }
    }
}

impl Default for FallbackProvider {
    fn default() -> (r: Self)
        ensures
            r.stored(ClipboardType::Clipboard) == Seq::<char>::empty(),
            r.stored(ClipboardType::Selection) == Seq::<char>::empty(),
    {
        FallbackProvider::new()
    }
}

impl ClipboardProvider for FallbackProvider {
    open spec fn spec_name(&self) -> Seq<char> {
        "none"@
    }

    /// Reading always succeeds and returns the internal buffer.
    open spec fn get_post(&self, clipboard_type: ClipboardType, r: Result<
        String,
        ClipboardError,
    >) -> bool {
        r matches Ok(s) && s@ == self.stored(clipboard_type)
    }

    /// Writing always succeeds, replaces the addressed buffer and leaves
    /// the other untouched.
    open spec fn set_post(
        &self,
        contents: Seq<char>,
        clipboard_type: ClipboardType,
        new_self: Self,
        r: Result<(), ClipboardError>,
    ) -> bool {
        &&& r is Ok
        &&& new_self.stored(clipboard_type) == contents
        &&& new_self.stored(other_type(clipboard_type)) == self.stored(other_type(clipboard_type))
    }

    fn name(&self) -> (r: String) {
        String::from_str("none")
    }

    fn get_contents(&self, clipboard_type: ClipboardType) -> (r: Result<String, ClipboardError>) {
        let value = match clipboard_type {
            ClipboardType::Clipboard => self.buf.clone(),
            ClipboardType::Selection => self.primary_buf.clone(),
        };
        Ok(value)
    }

    fn set_contents(&mut self, contents: String, clipboard_type: ClipboardType) -> (r: Result<
        (),
        ClipboardError,
    >) {
        match clipboard_type {
            ClipboardType::Clipboard => self.buf = contents,
            ClipboardType::Selection => self.primary_buf = contents,
        }
        Ok(())
    }
}

} // verus!
