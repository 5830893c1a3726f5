//! Clipboard integration: the provider interface, the concrete providers,
//! and the probe-driven selection of the provider to use on a given system.
//!
//! Everything that touches the outside world — spawning the helper
//! programs, the native clipboard calls, probing the environment — is the
//! caller's job; this module holds the selection rule, the provider state
//! and the bytes each provider emits.
pub mod fallback_provider;
pub mod osc52_provider;
pub mod other_provider;
pub mod windows_provider;

use crate::clipboard::fallback_provider::FallbackProvider;
use crate::clipboard::osc52_provider::Osc52Provider;
use crate::clipboard::other_provider::{Config, Provider};
use crate::clipboard::windows_provider::WindowsProvider;
use vstd::prelude::*;

verus! {

/// The clipboard a request does not address.
pub open spec fn other_type(clipboard_type: ClipboardType) -> ClipboardType {
    match clipboard_type {
        ClipboardType::Clipboard => ClipboardType::Selection,
        ClipboardType::Selection => ClipboardType::Clipboard,
    }
}

/// Which clipboard a request addresses: the system clipboard, or the
/// primary selection where the platform has one.
#[derive(Clone, Copy, Debug, PartialEq, Eq, Structural)]
pub enum ClipboardType {
    Clipboard,
    Selection,
}

/// An error from a clipboard operation, carrying the underlying message.
#[derive(Clone, Debug)]
pub struct ClipboardError {
    pub message: String,
}

/// The operations every clipboard provider offers. Each implementation
/// fixes, through the three spec functions, exactly what its name is and
/// what its get and set operations guarantee.
pub trait ClipboardProvider: Sized {
    /// The provider's advertised name.
    spec fn spec_name(&self) -> Seq<char>;

    /// What `get_contents` guarantees of its result.
    spec fn get_post(&self, clipboard_type: ClipboardType, r: Result<
        String,
        ClipboardError,
    >) -> bool;

    /// What `set_contents` guarantees of the new state and the result.
    spec fn set_post(
        &self,
        contents: Seq<char>,
        clipboard_type: ClipboardType,
        new_self: Self,
        r: Result<(), ClipboardError>,
    ) -> bool;

    fn name(&self) -> (r: String)
        ensures
            r@ == self.spec_name(),
    ;

    fn get_contents(&self, clipboard_type: ClipboardType) -> (r: Result<String, ClipboardError>)
        ensures
            self.get_post(clipboard_type, r),
    ;

    fn set_contents(&mut self, contents: String, clipboard_type: ClipboardType) -> (r: Result<
        (),
        ClipboardError,
    >)
        ensures
            old(self).set_post(contents@, clipboard_type, *final(self), r),
    ;
}

/// The platform family the host runs on, as far as provider selection
/// cares.
#[derive(Clone, Copy, Debug, PartialEq, Eq, Structural)]
pub enum Platform {
    Windows,
    MacOs,
    Wasm,
    Other,
}

/// Everything provider selection looks at: the platform, whether the host
/// drives a terminal it may write escape codes to, and which environment
/// variables and helper programs the caller found.
#[derive(Clone, Copy, Debug, PartialEq, Eq, Structural)]
pub struct ClipboardProbe {
    pub platform: Platform,
    /// Whether a terminal is attached, so OSC 52 escape codes are an option.
    pub terminal: bool,
    pub pbcopy: bool,
    pub pbpaste: bool,
    pub wayland_display: bool,
    pub wl_copy: bool,
    pub wl_paste: bool,
    pub display: bool,
    pub xclip: bool,
    pub xsel: bool,
    pub xsel_works: bool,
    pub win32yank: bool,
    pub termux_set: bool,
    pub termux_get: bool,
    pub tmux_env: bool,
    pub tmux: bool,
}

/// The provider selected for a system.
#[derive(Debug)]
pub enum ProviderChoice {
    Windows(WindowsProvider),
    Command(Provider),
    Osc52(Osc52Provider),
    Fallback(FallbackProvider),
}

/// A fallback provider as `FallbackProvider::new` yields it: both buffers
/// empty.
pub open spec fn fresh_fallback(f: FallbackProvider) -> bool {
    f.stored(ClipboardType::Clipboard) == Seq::<char>::empty() && f.stored(ClipboardType::Selection)
        == Seq::<char>::empty()
}

/// An OSC 52 provider as `Osc52Provider::new` yields it: both buffers
/// empty.
pub open spec fn fresh_osc52(o: Osc52Provider) -> bool {
    o.stored(ClipboardType::Clipboard) == Seq::<char>::empty() && o.stored(ClipboardType::Selection)
        == Seq::<char>::empty()
}

pub open spec fn is_pb_provider(p: Provider) -> bool {
    &&& other_provider::config_is(p.get_cmd, "pbpaste"@, Seq::<Seq<char>>::empty())
    &&& other_provider::config_is(p.set_cmd, "pbcopy"@, Seq::<Seq<char>>::empty())
    &&& p.get_primary_cmd is None
    &&& p.set_primary_cmd is None
}

pub open spec fn is_wayland_provider(p: Provider) -> bool {
    &&& other_provider::config_is(p.get_cmd, "wl-paste"@, seq!["--no-newline"@])
    &&& other_provider::config_is(p.set_cmd, "wl-copy"@, seq!["--type"@, "text/plain"@])
    &&& p.get_primary_cmd matches Some(c) && other_provider::config_is(
        c,
        "wl-paste"@,
        seq!["-p"@, "--no-newline"@],
    )
    &&& p.set_primary_cmd matches Some(c) && other_provider::config_is(
        c,
        "wl-copy"@,
        seq!["-p"@, "--type"@, "text/plain"@],
    )
}

pub open spec fn is_xclip_provider(p: Provider) -> bool {
    &&& other_provider::config_is(p.get_cmd, "xclip"@, seq!["-o"@, "-selection"@, "clipboard"@])
    &&& other_provider::config_is(p.set_cmd, "xclip"@, seq!["-i"@, "-selection"@, "clipboard"@])
    &&& p.get_primary_cmd matches Some(c) && other_provider::config_is(c, "xclip"@, seq!["-o"@])
    &&& p.set_primary_cmd matches Some(c) && other_provider::config_is(c, "xclip"@, seq!["-i"@])
}

pub open spec fn is_xsel_provider(p: Provider) -> bool {
    &&& other_provider::config_is(p.get_cmd, "xsel"@, seq!["-o"@, "-b"@])
    &&& other_provider::config_is(p.set_cmd, "xsel"@, seq!["-i"@, "-b"@])
    &&& p.get_primary_cmd matches Some(c) && other_provider::config_is(c, "xsel"@, seq!["-o"@])
    &&& p.set_primary_cmd matches Some(c) && other_provider::config_is(c, "xsel"@, seq!["-i"@])
}

pub open spec fn is_win32yank_provider(p: Provider) -> bool {
    &&& other_provider::config_is(p.get_cmd, "win32yank.exe"@, seq!["-o"@, "--lf"@])
    &&& other_provider::config_is(p.set_cmd, "win32yank.exe"@, seq!["-i"@, "--crlf"@])
    &&& p.get_primary_cmd is None
    &&& p.set_primary_cmd is None
}

pub open spec fn is_termux_provider(p: Provider) -> bool {
    &&& other_provider::config_is(p.get_cmd, "termux-clipboard-get"@, Seq::<Seq<char>>::empty())
    &&& other_provider::config_is(p.set_cmd, "termux-clipboard-set"@, Seq::<Seq<char>>::empty())
    &&& p.get_primary_cmd is None
    &&& p.set_primary_cmd is None
}

pub open spec fn is_tmux_provider(p: Provider) -> bool {
    &&& other_provider::config_is(p.get_cmd, "tmux"@, seq!["save-buffer"@, "-"@])
    &&& other_provider::config_is(p.set_cmd, "tmux"@, seq!["load-buffer"@, "-w"@, "-"@])
    &&& p.get_primary_cmd is None
    &&& p.set_primary_cmd is None
}

/// The last resort where no helper program fits: the OSC 52 provider when
/// a terminal is attached, and the purely internal fallback otherwise.
pub open spec fn default_choice(probe: ClipboardProbe, r: ProviderChoice) -> bool {
    if probe.terminal {
        r matches ProviderChoice::Osc52(o) && fresh_osc52(o)
    } else {
        r matches ProviderChoice::Fallback(f) && fresh_fallback(f)
    }
}

/// Exactly which provider `get_clipboard_provider` selects for a probe.
pub open spec fn spec_provider_choice(probe: ClipboardProbe, r: ProviderChoice) -> bool {
    match probe.platform {
        Platform::Windows => r is Windows,
        Platform::Wasm => r matches ProviderChoice::Fallback(f) && fresh_fallback(f),
        Platform::MacOs => if probe.pbcopy && probe.pbpaste {
            r matches ProviderChoice::Command(p) && is_pb_provider(p)
        } else {
            default_choice(probe, r)
        },
        Platform::Other => if probe.wayland_display && probe.wl_copy && probe.wl_paste {
            r matches ProviderChoice::Command(p) && is_wayland_provider(p)
        } else if probe.display && probe.xclip {
            r matches ProviderChoice::Command(p) && is_xclip_provider(p)
        } else if probe.display && probe.xsel && probe.xsel_works {
            r matches ProviderChoice::Command(p) && is_xsel_provider(p)
        } else if probe.win32yank {
            r matches ProviderChoice::Command(p) && is_win32yank_provider(p)
        } else if probe.termux_set && probe.termux_get {
            r matches ProviderChoice::Command(p) && is_termux_provider(p)
        } else if probe.tmux_env && probe.tmux {
            r matches ProviderChoice::Command(p) && is_tmux_provider(p)
        } else {
            default_choice(probe, r)
        },
    }
}

fn cfg0(prg: &str) -> (c: Config)
    ensures
        other_provider::config_is(c, prg@, Seq::<Seq<char>>::empty()),
{
    let c = Config { prg: String::from_str(prg), args: Vec::new() };
    proof {
        assert(other_provider::spec_args(c) =~= Seq::<Seq<char>>::empty());
    }
    c
}

fn cfg1(prg: &str, a0: &str) -> (c: Config)
    ensures
        other_provider::config_is(c, prg@, seq![a0@]),
{
    let mut args: Vec<String> = Vec::new();
    args.push(String::from_str(a0));
    let c = Config { prg: String::from_str(prg), args };
    proof {
        assert(other_provider::spec_args(c) =~= seq![a0@]);
    }
    c
}

fn cfg2(prg: &str, a0: &str, a1: &str) -> (c: Config)
    ensures
        other_provider::config_is(c, prg@, seq![a0@, a1@]),
{
    let mut args: Vec<String> = Vec::new();
    args.push(String::from_str(a0));
    args.push(String::from_str(a1));
    let c = Config { prg: String::from_str(prg), args };
    proof {
        assert(other_provider::spec_args(c) =~= seq![a0@, a1@]);
    }
    c
}

fn cfg3(prg: &str, a0: &str, a1: &str, a2: &str) -> (c: Config)
    ensures
        other_provider::config_is(c, prg@, seq![a0@, a1@, a2@]),
{
    let mut args: Vec<String> = Vec::new();
    args.push(String::from_str(a0));
    args.push(String::from_str(a1));
    args.push(String::from_str(a2));
    let c = Config { prg: String::from_str(prg), args };
    proof {
        assert(other_provider::spec_args(c) =~= seq![a0@, a1@, a2@]);
    }
    c
}

/// Select the clipboard provider for a system, from what the caller's
/// probing of that system found: the first helper-program pair of the
/// platform's preference order that is available, and the terminal or
/// internal fallback where none is.
pub fn get_clipboard_provider(probe: &ClipboardProbe) -> (r: ProviderChoice)
    ensures
        spec_provider_choice(*probe, r),
{
    match probe.platform {
        Platform::Windows => ProviderChoice::Windows(WindowsProvider),
        Platform::Wasm => ProviderChoice::Fallback(FallbackProvider::new()),
        Platform::MacOs => {
            if probe.pbcopy && probe.pbpaste {
                ProviderChoice::Command(
                    Provider {
                        get_cmd: cfg0("pbpaste"),
                        set_cmd: cfg0("pbcopy"),
                        get_primary_cmd: None,
                        set_primary_cmd: None,
                    },
                )
            } else if probe.terminal {
                ProviderChoice::Osc52(Osc52Provider::new())
            } else {
                ProviderChoice::Fallback(FallbackProvider::new())
            }
        },
        Platform::Other => {
            if probe.wayland_display && probe.wl_copy && probe.wl_paste {
                ProviderChoice::Command(
                    Provider {
                        get_cmd: cfg1("wl-paste", "--no-newline"),
                        set_cmd: cfg2("wl-copy", "--type", "text/plain"),
                        get_primary_cmd: Some(cfg2("wl-paste", "-p", "--no-newline")),
                        set_primary_cmd: Some(cfg3("wl-copy", "-p", "--type", "text/plain")),
                    },
                )
            } else if probe.display && probe.xclip {
                ProviderChoice::Command(
                    Provider {
                        get_cmd: cfg3("xclip", "-o", "-selection", "clipboard"),
                        set_cmd: cfg3("xclip", "-i", "-selection", "clipboard"),
                        get_primary_cmd: Some(cfg1("xclip", "-o")),
                        set_primary_cmd: Some(cfg1("xclip", "-i")),
                    },
                )
            } else if probe.display && probe.xsel && probe.xsel_works {
                ProviderChoice::Command(
                    Provider {
                        get_cmd: cfg2("xsel", "-o", "-b"),
                        set_cmd: cfg2("xsel", "-i", "-b"),
                        get_primary_cmd: Some(cfg1("xsel", "-o")),
                        set_primary_cmd: Some(cfg1("xsel", "-i")),
                    },
                )
            } else if probe.win32yank {
                ProviderChoice::Command(
                    Provider {
                        get_cmd: cfg2("win32yank.exe", "-o", "--lf"),
                        set_cmd: cfg2("win32yank.exe", "-i", "--crlf"),
                        get_primary_cmd: None,
                        set_primary_cmd: None,
                    },
                )
            } else if probe.termux_set && probe.termux_get {
                ProviderChoice::Command(
                    Provider {
                        get_cmd: cfg0("termux-clipboard-get"),
                        set_cmd: cfg0("termux-clipboard-set"),
                        get_primary_cmd: None,
                        set_primary_cmd: None,
                    },
                )
            } else if probe.tmux_env && probe.tmux {
                ProviderChoice::Command(
                    Provider {
                        get_cmd: cfg2("tmux", "save-buffer", "-"),
                        set_cmd: cfg3("tmux", "load-buffer", "-w", "-"),
                        get_primary_cmd: None,
                        set_primary_cmd: None,
                    },
                )
            } else if probe.terminal {
                ProviderChoice::Osc52(Osc52Provider::new())
            } else {
                ProviderChoice::Fallback(FallbackProvider::new())
            }
        },
    }
}

} // verus!
