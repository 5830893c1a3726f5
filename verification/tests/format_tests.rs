use helix_plugins::base64;
use helix_plugins::clipboard::osc52_provider::SetClipboardCommand;
use helix_plugins::clipboard::ClipboardType;
use helix_plugins::events::{KeyCode, KeyEvent, KeyModifiers, MouseEvent, MouseEventKind};
use helix_plugins::events::{MouseButton};
use helix_plugins::exported::{key_event, key_modifiers, mouse_event, mouse_event_kind};

fn plain_modifiers() -> KeyModifiers {
    KeyModifiers { shift: false, control: false, alt: false }
}

#[test]
fn mouse_event_kind_compact_text() {
    assert_eq!(
        mouse_event_kind::to_string(&mut MouseEventKind::Down(MouseButton::Left)),
        "Down(Left)"
    );
    assert_eq!(
        mouse_event_kind::to_string(&mut MouseEventKind::Up(MouseButton::Middle)),
        "Up(Middle)"
    );
    assert_eq!(mouse_event_kind::to_string(&mut MouseEventKind::ScrollDown), "ScrollDown");
}

#[test]
fn mouse_event_kind_pretty_text() {
    assert_eq!(
        mouse_event_kind::to_debug(&mut MouseEventKind::Drag(MouseButton::Right)),
        "Drag(\n    Right,\n)"
    );
    assert_eq!(mouse_event_kind::to_debug(&mut MouseEventKind::Moved), "Moved");
}

#[test]
fn key_modifiers_text() {
    let mut m = KeyModifiers { shift: true, control: false, alt: false };
    assert_eq!(
        key_modifiers::to_string(&mut m),
        "KeyModifiers { shift: true, control: false, alt: false }"
    );
    assert_eq!(
        key_modifiers::to_debug(&mut m),
        "KeyModifiers {\n    shift: true,\n    control: false,\n    alt: false,\n}"
    );
    assert!(key_modifiers::get_shift(&mut m));
}

#[test]
fn key_event_text() {
    let mut e = KeyEvent { code: KeyCode::Char('a'), modifiers: plain_modifiers() };
    assert_eq!(
        key_event::to_string(&mut e),
        "KeyEvent { code: Char('a'), modifiers: KeyModifiers { shift: false, control: false, alt: false } }"
    );
    let mut f = KeyEvent { code: KeyCode::F(12), modifiers: plain_modifiers() };
    assert_eq!(
        key_event::to_string(&mut f),
        "KeyEvent { code: F(12), modifiers: KeyModifiers { shift: false, control: false, alt: false } }"
    );
    assert_eq!(key_event::get_code(&mut f), KeyCode::F(12));
    assert_eq!(key_event::get_modifiers(&mut f), plain_modifiers());
}

#[test]
fn mouse_event_text_and_getters() {
    let mut e = MouseEvent {
        kind: MouseEventKind::ScrollDown,
        column: 10,
        row: 5,
        modifiers: plain_modifiers(),
    };
    assert_eq!(
        mouse_event::to_string(&mut e),
        "MouseEvent { kind: ScrollDown, column: 10, row: 5, modifiers: KeyModifiers { shift: false, control: false, alt: false } }"
    );
    assert_eq!(
        mouse_event::to_debug(&mut e),
        "MouseEvent {\n    kind: ScrollDown,\n    column: 10,\n    row: 5,\n    modifiers: KeyModifiers { shift: false, control: false, alt: false },\n}"
    );
    assert_eq!(mouse_event::get_kind(&mut e), MouseEventKind::ScrollDown);
    assert_eq!(mouse_event::get_column(&mut e), 10);
    assert_eq!(mouse_event::get_row(&mut e), 5);
    assert_eq!(mouse_event::get_modifiers(&mut e), plain_modifiers());
}

#[test]
fn base64_known_vectors() {
    assert_eq!(base64::encode(b""), "");
    assert_eq!(base64::encode(b"f"), "Zg==");
    assert_eq!(base64::encode(b"fo"), "Zm8=");
    assert_eq!(base64::encode(b"foo"), "Zm9v");
    assert_eq!(base64::encode(b"foob"), "Zm9vYg==");
    assert_eq!(base64::encode(b"fooba"), "Zm9vYmE=");
    assert_eq!(base64::encode(b"foobar"), "Zm9vYmFy");
    assert_eq!(base64::encode(b"hello world"), "aGVsbG8gd29ybGQ=");
    assert_eq!(base64::encode(&[0xfb, 0xff, 0x3e]), "+/8+");
}

#[test]
fn osc52_sequence_for_clipboard() {
    let command = SetClipboardCommand::new("hello", ClipboardType::Clipboard);
    let mut out = String::new();
    command.write_ansi(&mut out);
    assert_eq!(out, "\u{1b}]52;c;aGVsbG8=\u{1b}\\");
}

#[test]
fn osc52_sequence_for_selection() {
    let command = SetClipboardCommand::new("x", ClipboardType::Selection);
    let mut out = String::from("prefix");
    command.write_ansi(&mut out);
    assert_eq!(out, "prefix\u{1b}]52;p;eA==\u{1b}\\");
}

#[test]
fn function_key_indices_render_in_decimal() {
    let mut low = KeyEvent { code: KeyCode::F(0), modifiers: plain_modifiers() };
    assert!(key_event::to_string(&mut low).starts_with("KeyEvent { code: F(0),"));
    let mut high = KeyEvent { code: KeyCode::F(255), modifiers: plain_modifiers() };
    assert!(key_event::to_string(&mut high).starts_with("KeyEvent { code: F(255),"));
}

#[test]
fn widest_coordinates_render_in_decimal() {
    let mut e = MouseEvent {
        kind: MouseEventKind::Moved,
        column: 65535,
        row: 0,
        modifiers: plain_modifiers(),
    };
    assert!(mouse_event::to_string(&mut e).contains("column: 65535, row: 0,"));
}
