//! The command provider: clipboard access through a pair of helper
//! programs (and an optional pair for the primary selection). Deciding
//! which command a request needs is done here; actually spawning it is the
//! caller's job, since it is process I/O.
use crate::clipboard::ClipboardType;
use vstd::prelude::*;

verus! {

/// One helper-program invocation: the program and its fixed arguments.
#[derive(Clone, Debug)]
pub struct Config {
    pub prg: String,
    pub args: Vec<String>,
}

/// The argument list of a configuration, as character sequences.
pub open spec fn spec_args(c: Config) -> Seq<Seq<char>> {
    c.args@.map_values(|s: String| s@)
}

/// Whether a configuration invokes `prg` with exactly `args`.
pub open spec fn config_is(c: Config, prg: Seq<char>, args: Seq<Seq<char>>) -> bool {
    c.prg@ == prg && spec_args(c) == args
}

/// A command-driven clipboard provider: one command to paste, one to copy,
/// and optionally a pair for the primary selection.
#[derive(Clone, Debug)]
pub struct Provider {
    pub get_cmd: Config,
    pub set_cmd: Config,
    pub get_primary_cmd: Option<Config>,
    pub set_primary_cmd: Option<Config>,
}

/// The advertised name: both program names where paste and copy differ,
/// joined by `+`, and the single program name otherwise.
pub open spec fn spec_provider_name(p: Provider) -> Seq<char> {
    if p.get_cmd.prg@ != p.set_cmd.prg@ {
        p.get_cmd.prg@ + "+"@ + p.set_cmd.prg@
    } else {
        p.get_cmd.prg@
    }
}

impl Provider {
    pub fn name(&self) -> (r: String)
        ensures
            r@ == spec_provider_name(*self),
    {
        if self.get_cmd.prg == self.set_cmd.prg {
            self.get_cmd.prg.clone()
        } else {
            let mut s = self.get_cmd.prg.clone();
            s.append("+");
            s.append(self.set_cmd.prg.as_str());
            proof {
                assert(s@ =~= spec_provider_name(*self));
            }
            s
        }
    }

    /// The command a read must run: the paste command for the system
    /// clipboard, the primary paste command for the selection where one is
    /// configured, and none otherwise — a read without a command yields the
    /// empty string.
    pub fn get_command(&self, clipboard_type: ClipboardType) -> (r: Option<&Config>)
        ensures
            match clipboard_type {
                ClipboardType::Clipboard => r matches Some(c) && *c == self.get_cmd,
                ClipboardType::Selection => match self.get_primary_cmd {
                    Some(pc) => r matches Some(c) && *c == pc,
                    None => r is None,
                },
            },
    {
        match clipboard_type {
            ClipboardType::Clipboard => Some(&self.get_cmd),
            ClipboardType::Selection => match &self.get_primary_cmd {
                Some(cmd) => Some(cmd),
                None => None,
            },
        }
    }

    /// The command a write must run, by the same rule; a write without a
    /// command is a silent no-op.
    pub fn set_command(&self, clipboard_type: ClipboardType) -> (r: Option<&Config>)
        ensures
            match clipboard_type {
                ClipboardType::Clipboard => r matches Some(c) && *c == self.set_cmd,
                ClipboardType::Selection => match self.set_primary_cmd {
                    Some(pc) => r matches Some(c) && *c == pc,
                    None => r is None,
                },
            },
    {
        match clipboard_type {
            ClipboardType::Clipboard => Some(&self.set_cmd),
            ClipboardType::Selection => match &self.set_primary_cmd {
                Some(cmd) => Some(cmd),
                None => None,
            },
        }
    }
}

} // verus!
