use helix_plugins::clipboard::fallback_provider::FallbackProvider;
use helix_plugins::clipboard::other_provider::{Config, Provider};
use helix_plugins::clipboard::windows_provider::WindowsProvider;
use helix_plugins::clipboard::{
    get_clipboard_provider, ClipboardProbe, ClipboardProvider, ClipboardType, Platform,
    ProviderChoice,
};

fn quiet_probe(platform: Platform) -> ClipboardProbe {
    ClipboardProbe {
        platform,
        terminal: false,
        pbcopy: false,
        pbpaste: false,
        wayland_display: false,
        wl_copy: false,
        wl_paste: false,
        display: false,
        xclip: false,
        xsel: false,
        xsel_works: false,
        win32yank: false,
        termux_set: false,
        termux_get: false,
        tmux_env: false,
        tmux: false,
    }
}

#[test]
fn fallback_provider_keeps_both_buffers() {
    let mut p = FallbackProvider::new();
    assert_eq!(p.name(), "none");
    assert_eq!(p.get_contents(ClipboardType::Clipboard).unwrap(), "");
    assert_eq!(p.get_contents(ClipboardType::Selection).unwrap(), "");
    p.set_contents("yanked".to_string(), ClipboardType::Clipboard).unwrap();
    p.set_contents("selected".to_string(), ClipboardType::Selection).unwrap();
    assert_eq!(p.get_contents(ClipboardType::Clipboard).unwrap(), "yanked");
    assert_eq!(p.get_contents(ClipboardType::Selection).unwrap(), "selected");
}

#[test]
fn windows_provider_name() {
    let p = WindowsProvider::default();
    assert_eq!(p.name(), "clipboard-win");
}

fn config(prg: &str, args: &[&str]) -> Config {
    Config {
        prg: prg.to_string(),
        args: args.iter().map(|a| a.to_string()).collect(),
    }
}

#[test]
fn command_provider_name_joins_distinct_programs() {
    let p = Provider {
        get_cmd: config("wl-paste", &[]),
        set_cmd: config("wl-copy", &[]),
        get_primary_cmd: None,
        set_primary_cmd: None,
    };
    assert_eq!(p.name(), "wl-paste+wl-copy");
    let q = Provider {
        get_cmd: config("xclip", &["-o"]),
        set_cmd: config("xclip", &["-i"]),
        get_primary_cmd: None,
        set_primary_cmd: None,
    };
    assert_eq!(q.name(), "xclip");
}

#[test]
fn command_provider_selection_plans() {
    let p = Provider {
        get_cmd: config("xsel", &["-o", "-b"]),
        set_cmd: config("xsel", &["-i", "-b"]),
        get_primary_cmd: Some(config("xsel", &["-o"])),
        set_primary_cmd: None,
    };
    assert_eq!(p.get_command(ClipboardType::Clipboard).unwrap().args, vec!["-o", "-b"]);
    assert_eq!(p.get_command(ClipboardType::Selection).unwrap().args, vec!["-o"]);
    assert!(p.set_command(ClipboardType::Selection).is_none());
    assert_eq!(p.set_command(ClipboardType::Clipboard).unwrap().prg, "xsel");
}

#[test]
fn windows_platform_selects_native_provider() {
    let r = get_clipboard_provider(&quiet_probe(Platform::Windows));
    assert!(matches!(r, ProviderChoice::Windows(_)));
}

#[test]
fn wasm_platform_always_falls_back() {
    let mut probe = quiet_probe(Platform::Wasm);
    probe.terminal = true;
    let r = get_clipboard_provider(&probe);
    assert!(matches!(r, ProviderChoice::Fallback(_)));
}

#[test]
fn wayland_selects_wl_clipboard_commands() {
    let mut probe = quiet_probe(Platform::Other);
    probe.wayland_display = true;
    probe.wl_copy = true;
    probe.wl_paste = true;
    // Even with X helpers around, wayland wins.
    probe.display = true;
    probe.xclip = true;
    match get_clipboard_provider(&probe) {
        ProviderChoice::Command(p) => {
            assert_eq!(p.get_cmd.prg, "wl-paste");
            assert_eq!(p.get_cmd.args, vec!["--no-newline"]);
            assert_eq!(p.set_cmd.prg, "wl-copy");
            assert_eq!(p.set_cmd.args, vec!["--type", "text/plain"]);
            assert_eq!(p.get_primary_cmd.unwrap().args, vec!["-p", "--no-newline"]);
            assert_eq!(p.set_primary_cmd.unwrap().args, vec!["-p", "--type", "text/plain"]);
        }
        other => panic!("expected a command provider, got {:?}", other),
    }
}

#[test]
fn xclip_needs_a_display() {
    let mut probe = quiet_probe(Platform::Other);
    probe.xclip = true;
    probe.terminal = true;
    assert!(matches!(get_clipboard_provider(&probe), ProviderChoice::Osc52(_)));
    probe.display = true;
    match get_clipboard_provider(&probe) {
        ProviderChoice::Command(p) => {
            assert_eq!(p.get_cmd.prg, "xclip");
            assert_eq!(p.get_cmd.args, vec!["-o", "-selection", "clipboard"]);
        }
        other => panic!("expected a command provider, got {:?}", other),
    }
}

#[test]
fn xsel_needs_a_working_probe_run() {
    let mut probe = quiet_probe(Platform::Other);
    probe.display = true;
    probe.xsel = true;
    assert!(matches!(get_clipboard_provider(&probe), ProviderChoice::Fallback(_)));
    probe.xsel_works = true;
    match get_clipboard_provider(&probe) {
        ProviderChoice::Command(p) => assert_eq!(p.name(), "xsel"),
        other => panic!("expected a command provider, got {:?}", other),
    }
}

#[test]
fn remaining_helpers_in_preference_order() {
    let mut probe = quiet_probe(Platform::Other);
    probe.win32yank = true;
    probe.termux_set = true;
    probe.termux_get = true;
    probe.tmux_env = true;
    probe.tmux = true;
    match get_clipboard_provider(&probe) {
        ProviderChoice::Command(p) => assert_eq!(p.get_cmd.prg, "win32yank.exe"),
        other => panic!("expected a command provider, got {:?}", other),
    }
    probe.win32yank = false;
    match get_clipboard_provider(&probe) {
        ProviderChoice::Command(p) => assert_eq!(p.name(), "termux-clipboard-get+termux-clipboard-set"),
        other => panic!("expected a command provider, got {:?}", other),
    }
    probe.termux_get = false;
    match get_clipboard_provider(&probe) {
        ProviderChoice::Command(p) => {
            assert_eq!(p.get_cmd.prg, "tmux");
            assert_eq!(p.get_cmd.args, vec!["save-buffer", "-"]);
            assert_eq!(p.set_cmd.args, vec!["load-buffer", "-w", "-"]);
        }
        other => panic!("expected a command provider, got {:?}", other),
    }
}

#[test]
fn macos_prefers_pasteboard_commands() {
    let mut probe = quiet_probe(Platform::MacOs);
    probe.pbcopy = true;
    probe.pbpaste = true;
    match get_clipboard_provider(&probe) {
        ProviderChoice::Command(p) => assert_eq!(p.name(), "pbpaste+pbcopy"),
        other => panic!("expected a command provider, got {:?}", other),
    }
    probe.pbpaste = false;
    probe.terminal = true;
    assert!(matches!(get_clipboard_provider(&probe), ProviderChoice::Osc52(_)));
}

#[test]
fn windows_selection_never_reaches_the_native_clipboard() {
    let p = WindowsProvider::default();
    assert!(p.uses_native_clipboard(ClipboardType::Clipboard));
    assert!(!p.uses_native_clipboard(ClipboardType::Selection));
}
