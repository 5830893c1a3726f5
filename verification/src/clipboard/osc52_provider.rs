//! The terminal-code provider: yanking emits an OSC 52 set sequence on
//! standard output; pasting stays internal, served from in-memory buffers
//! (the get side of OSC 52 is deliberately not used).
use crate::base64;
use crate::base64::spec_base64;
use crate::clipboard::{other_type, ClipboardError, ClipboardProvider, ClipboardType};
use std::io::Write;
use vstd::string::StringSliceAdditionalSpecFns;
use vstd::prelude::*;

verus! {

/// The selection letter inside an OSC 52 sequence: `c` for the system
/// clipboard, `p` for the primary selection.
pub open spec fn spec_osc52_kind(clipboard_type: ClipboardType) -> Seq<char> {
    match clipboard_type {
        ClipboardType::Clipboard => "c"@,
        ClipboardType::Selection => "p"@,
    }
}

/// A full OSC 52 set sequence carrying the given base64-encoded payload.
pub open spec fn spec_osc52_sequence(clipboard_type: ClipboardType, encoded: Seq<char>) -> Seq<
    char,
> {
    "\u{1b}]52;"@ + spec_osc52_kind(clipboard_type) + ";"@ + encoded + "\u{1b}\\"@
}

/// An OSC 52 set command: the payload is fixed, base64-encoded, at
/// construction.
#[derive(Debug)]
pub struct SetClipboardCommand {
    encoded_content: String,
    clipboard_type: ClipboardType,
}

impl SetClipboardCommand {
    pub closed spec fn spec_encoded(&self) -> Seq<char> {
        self.encoded_content@
    }

    pub closed spec fn spec_clipboard_type(&self) -> ClipboardType {
        self.clipboard_type
    }

    pub fn new(content: &str, clipboard_type: ClipboardType) -> (r: Self)
        ensures
            r.spec_encoded() == spec_base64(content.spec_bytes()),
            r.spec_clipboard_type() == clipboard_type,
    {
        SetClipboardCommand { encoded_content: base64::encode(content.as_bytes()), clipboard_type }
    }

    /// Append the escape sequence this command stands for to `f`.
    pub fn write_ansi(&self, f: &mut String)
        ensures
            final(f)@ == old(f)@ + spec_osc52_sequence(self.spec_clipboard_type(), self.spec_encoded()),
    {
        let kind: &str = match self.clipboard_type {
            ClipboardType::Clipboard => "c",
            ClipboardType::Selection => "p",
        };
        f.append("\u{1b}]52;");
        f.append(kind);
        f.append(";");
        f.append(self.encoded_content.as_str());
        f.append("\u{1b}\\");
        assert(f@ =~= old(f)@ + spec_osc52_sequence(self.spec_clipboard_type(), self.spec_encoded()));
    }
}

/// Relies on std's `io::Write::write_all` on standard output: on success
/// the whole buffer was handed to the stream.
#[verifier::external_body]
fn stdout_write_all(s: &str) -> (r: Result<(), ClipboardError>) {
    std::io::stdout().write_all(s.as_bytes()).map_err(
        |e| ClipboardError { message: format!("{}", e) },
    )
}

/// Relies on std's `io::Write::flush` on standard output.
#[verifier::external_body]
fn stdout_flush() -> (r: Result<(), ClipboardError>) {
    std::io::stdout().flush().map_err(|e| ClipboardError { message: format!("{}", e) })
}

#[derive(Debug)]
pub struct Osc52Provider {
    buf: String,
    primary_buf: String,
}

impl Osc52Provider {
    /// What this provider holds internally for the given clipboard.
    pub closed spec fn stored(&self, clipboard_type: ClipboardType) -> Seq<char> {
        match clipboard_type {
            ClipboardType::Clipboard => self.buf@,
            ClipboardType::Selection => self.primary_buf@,
        }
    }

    pub fn new() -> (r: Self)
        ensures
            r.stored(ClipboardType::Clipboard) == Seq::<char>::empty(),
            r.stored(ClipboardType::Selection) == Seq::<char>::empty(),
    {
        Osc52Provider { buf: String::new(), primary_buf: String::new() }
    }
}

impl Default for Osc52Provider {
    fn default() -> (r: Self)
        ensures
            r.stored(ClipboardType::Clipboard) == Seq::<char>::empty(),
            r.stored(ClipboardType::Selection) == Seq::<char>::empty(),
    {
        Osc52Provider::new()
    }
}

impl ClipboardProvider for Osc52Provider {
    open spec fn spec_name(&self) -> Seq<char> {
        "termcode"@
    }

    /// Reading always succeeds and returns the internal buffer.
    open spec fn get_post(&self, clipboard_type: ClipboardType, r: Result<
        String,
        ClipboardError,
    >) -> bool {
        r matches Ok(s) && s@ == self.stored(clipboard_type)
    }

    /// On success the addressed buffer is replaced and the other kept; on a
    /// write failure the state is unchanged.
    open spec fn set_post(
        &self,
        contents: Seq<char>,
        clipboard_type: ClipboardType,
        new_self: Self,
        r: Result<(), ClipboardError>,
    ) -> bool {
        match r {
            Ok(_) => new_self.stored(clipboard_type) == contents && new_self.stored(
                other_type(clipboard_type),
            ) == self.stored(other_type(clipboard_type)),
            Err(_) => new_self == *self,
        }
    }

    fn name(&self) -> (r: String) {
        String::from_str("termcode")
    }

    fn get_contents(&self, clipboard_type: ClipboardType) -> (r: Result<String, ClipboardError>) {
        let value = match clipboard_type {
            ClipboardType::Clipboard => self.buf.clone(),
            ClipboardType::Selection => self.primary_buf.clone(),
        };
        Ok(value)
    }

    fn set_contents(&mut self, contents: String, clipboard_type: ClipboardType) -> (r: Result<
        (),
        ClipboardError,
    >) {
        let command = SetClipboardCommand::new(contents.as_str(), clipboard_type);
        let mut sequence = String::new();
        command.write_ansi(&mut sequence);
        match stdout_write_all(sequence.as_str()) {
            Err(e) => Err(e),
            Ok(_) => match stdout_flush() {
                Err(e) => Err(e),
                Ok(_) => {
                    match clipboard_type {
                        ClipboardType::Clipboard => self.buf = contents,
                        ClipboardType::Selection => self.primary_buf = contents,
                    }
                    Ok(())
                },
            },
        }
    }
}

} // verus!
