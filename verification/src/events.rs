//! Event model: stable, host-agnostic representations of key, mouse and
//! resize input, together with total translation functions from the host
//! terminal's own event representation.
//!
//! The host side of the translation is modelled by the `Host*` types: plain
//! mirrors of what the terminal capture layer reports (key codes, a modifier
//! bit set, mouse kinds and coordinates). Translation is pure, total and
//! cannot fail; every host variant has exactly one image.
use vstd::prelude::*;

verus! {

/// Modifier flags exposed to plugins: exactly shift, control and alt.
#[derive(Clone, Copy, Debug, PartialEq, Eq, Structural)]
pub struct KeyModifiers {
    pub shift: bool,
    pub control: bool,
    pub alt: bool,
}

#[derive(Clone, Copy, Debug, PartialEq, Eq, Structural)]
pub enum MouseButton {
    Left,
    Right,
    Middle,
}

#[derive(Clone, Copy, Debug, PartialEq, Eq, Structural)]
pub enum MouseEventKind {
    Down(MouseButton),
    Up(MouseButton),
    Drag(MouseButton),
    Moved,
    ScrollDown,
    ScrollUp,
}

#[derive(Clone, Copy, Debug, PartialEq, Eq, Structural)]
pub struct MouseEvent {
    pub kind: MouseEventKind,
    pub column: u16,
    pub row: u16,
    pub modifiers: KeyModifiers,
}

/// Closed key-code set: a one-to-one image of the host's key-code space,
/// with no "unknown" fallback variant.
#[derive(Clone, Copy, Debug, PartialEq, Eq, Structural)]
pub enum KeyCode {
    Backspace,
    Enter,
    Left,
    Right,
    Up,
    Down,
    Home,
    End,
    PageUp,
    PageDown,
    Tab,
    BackTab,
    Delete,
    Insert,
    F(u8),
    Char(char),
    Null,
    Esc,
}

#[derive(Clone, Copy, Debug, PartialEq, Eq, Structural)]
pub struct KeyEvent {
    pub code: KeyCode,
    pub modifiers: KeyModifiers,
}

/// Bit held by a host modifier set when shift is pressed.
pub const HOST_MOD_SHIFT: u8 = 0x01;

/// Bit held by a host modifier set when control is pressed.
pub const HOST_MOD_CONTROL: u8 = 0x02;

/// Bit held by a host modifier set when alt is pressed.
pub const HOST_MOD_ALT: u8 = 0x04;

/// The host's modifier set: a bit set in which shift, control and alt
/// occupy the three low bits; any further bits name modifiers that the
/// event model deliberately drops.
#[derive(Clone, Copy, Debug, PartialEq, Eq, Structural)]
pub struct HostKeyModifiers {
    pub bits: u8,
}

/// The host's key-code space, held as plain values.
#[derive(Clone, Copy, Debug, PartialEq, Eq, Structural)]
pub enum HostKeyCode {
    Backspace,
    Enter,
    Left,
    Right,
    Up,
    Down,
    Home,
    End,
    PageUp,
    PageDown,
    Tab,
    BackTab,
    Delete,
    Insert,
    F(u8),
    Char(char),
    Null,
    Esc,
}

#[derive(Clone, Copy, Debug, PartialEq, Eq, Structural)]
pub struct HostKeyEvent {
    pub code: HostKeyCode,
    pub modifiers: HostKeyModifiers,
}

#[derive(Clone, Copy, Debug, PartialEq, Eq, Structural)]
pub enum HostMouseButton {
    Left,
    Right,
    Middle,
}

#[derive(Clone, Copy, Debug, PartialEq, Eq, Structural)]
pub enum HostMouseEventKind {
    Down(HostMouseButton),
    Up(HostMouseButton),
    Drag(HostMouseButton),
    Moved,
    ScrollDown,
    ScrollUp,
}

#[derive(Clone, Copy, Debug, PartialEq, Eq, Structural)]
pub struct HostMouseEvent {
    pub kind: HostMouseEventKind,
    pub column: u16,
    pub row: u16,
    pub modifiers: HostKeyModifiers,
}

/// One host input event: a key press, a mouse event, or a resize to the
/// given number of columns and rows.
#[derive(Clone, Copy, Debug, PartialEq, Eq, Structural)]
pub enum HostEvent {
    Key(HostKeyEvent),
    Mouse(HostMouseEvent),
    Resize(u16, u16),
}

/// Projection of the host's modifier bit set onto the three exposed flags;
/// every other bit is dropped.
pub open spec fn spec_key_modifiers_from(host: HostKeyModifiers) -> KeyModifiers {
    KeyModifiers {
        shift: host.bits & HOST_MOD_SHIFT != 0,
        control: host.bits & HOST_MOD_CONTROL != 0,
        alt: host.bits & HOST_MOD_ALT != 0,
    }
}

/// The one-to-one mapping from the host key-code space.
pub open spec fn spec_key_code_from(host: HostKeyCode) -> KeyCode {
    match host {
        HostKeyCode::Backspace => KeyCode::Backspace,
        HostKeyCode::Enter => KeyCode::Enter,
        HostKeyCode::Left => KeyCode::Left,
        HostKeyCode::Right => KeyCode::Right,
        HostKeyCode::Up => KeyCode::Up,
        HostKeyCode::Down => KeyCode::Down,
        HostKeyCode::Home => KeyCode::Home,
        HostKeyCode::End => KeyCode::End,
        HostKeyCode::PageUp => KeyCode::PageUp,
        HostKeyCode::PageDown => KeyCode::PageDown,
        HostKeyCode::Tab => KeyCode::Tab,
        HostKeyCode::BackTab => KeyCode::BackTab,
        HostKeyCode::Delete => KeyCode::Delete,
        HostKeyCode::Insert => KeyCode::Insert,
        HostKeyCode::F(n) => KeyCode::F(n),
        HostKeyCode::Char(c) => KeyCode::Char(c),
        HostKeyCode::Null => KeyCode::Null,
        HostKeyCode::Esc => KeyCode::Esc,
    }
}

pub open spec fn spec_key_event_from(host: HostKeyEvent) -> KeyEvent {
    KeyEvent {
        code: spec_key_code_from(host.code),
        modifiers: spec_key_modifiers_from(host.modifiers),
    }
}

pub open spec fn spec_mouse_button_from(host: HostMouseButton) -> MouseButton {
    match host {
        HostMouseButton::Left => MouseButton::Left,
        HostMouseButton::Right => MouseButton::Right,
        HostMouseButton::Middle => MouseButton::Middle,
    }
}

pub open spec fn spec_mouse_event_kind_from(host: HostMouseEventKind) -> MouseEventKind {
    match host {
        HostMouseEventKind::Down(b) => MouseEventKind::Down(spec_mouse_button_from(b)),
        HostMouseEventKind::Up(b) => MouseEventKind::Up(spec_mouse_button_from(b)),
        HostMouseEventKind::Drag(b) => MouseEventKind::Drag(spec_mouse_button_from(b)),
        HostMouseEventKind::Moved => MouseEventKind::Moved,
        HostMouseEventKind::ScrollDown => MouseEventKind::ScrollDown,
        HostMouseEventKind::ScrollUp => MouseEventKind::ScrollUp,
    }
}

pub open spec fn spec_mouse_event_from(host: HostMouseEvent) -> MouseEvent {
    MouseEvent {
        kind: spec_mouse_event_kind_from(host.kind),
        column: host.column,
        row: host.row,
        modifiers: spec_key_modifiers_from(host.modifiers),
    }
}

impl KeyModifiers {
    /// Translate the host's modifier set, keeping exactly shift, control
    /// and alt and silently dropping every other modifier bit.
    pub fn from(host: HostKeyModifiers) -> (r: KeyModifiers)
        ensures
            r == spec_key_modifiers_from(host),
    {
        KeyModifiers {
            shift: host.bits & HOST_MOD_SHIFT != 0,
            control: host.bits & HOST_MOD_CONTROL != 0,
            alt: host.bits & HOST_MOD_ALT != 0,
        }
    }
}

impl KeyCode {
    /// Translate a host key code; the mapping is total and one-to-one.
    pub fn from(host: HostKeyCode) -> (r: KeyCode)
        ensures
            r == spec_key_code_from(host),
    {
        match host {
            HostKeyCode::Backspace => KeyCode::Backspace,
            HostKeyCode::Enter => KeyCode::Enter,
            HostKeyCode::Left => KeyCode::Left,
            HostKeyCode::Right => KeyCode::Right,
            HostKeyCode::Up => KeyCode::Up,
            HostKeyCode::Down => KeyCode::Down,
            HostKeyCode::Home => KeyCode::Home,
            HostKeyCode::End => KeyCode::End,
            HostKeyCode::PageUp => KeyCode::PageUp,
            HostKeyCode::PageDown => KeyCode::PageDown,
            HostKeyCode::Tab => KeyCode::Tab,
            HostKeyCode::BackTab => KeyCode::BackTab,
            HostKeyCode::Delete => KeyCode::Delete,
            HostKeyCode::Insert => KeyCode::Insert,
            HostKeyCode::F(n) => KeyCode::F(n),
            HostKeyCode::Char(c) => KeyCode::Char(c),
            HostKeyCode::Null => KeyCode::Null,
            HostKeyCode::Esc => KeyCode::Esc,
        }
    }
}

impl KeyEvent {
    pub fn from(host: HostKeyEvent) -> (r: KeyEvent)
        ensures
            r == spec_key_event_from(host),
    {
        let code = KeyCode::from(host.code);
        let modifiers = KeyModifiers::from(host.modifiers);
        KeyEvent { code, modifiers }
    }
}

impl MouseButton {
    pub fn from(host: HostMouseButton) -> (r: MouseButton)
        ensures
            r == spec_mouse_button_from(host),
    {
        match host {
            HostMouseButton::Left => MouseButton::Left,
            HostMouseButton::Right => MouseButton::Right,
            HostMouseButton::Middle => MouseButton::Middle,
        }
    }
}

impl MouseEventKind {
    pub fn from(host: HostMouseEventKind) -> (r: MouseEventKind)
        ensures
            r == spec_mouse_event_kind_from(host),
    {
        match host {
            HostMouseEventKind::Down(b) => MouseEventKind::Down(MouseButton::from(b)),
            HostMouseEventKind::Up(b) => MouseEventKind::Up(MouseButton::from(b)),
            HostMouseEventKind::Drag(b) => MouseEventKind::Drag(MouseButton::from(b)),
            HostMouseEventKind::Moved => MouseEventKind::Moved,
            HostMouseEventKind::ScrollDown => MouseEventKind::ScrollDown,
            HostMouseEventKind::ScrollUp => MouseEventKind::ScrollUp,
        }
    }
}

impl MouseEvent {
    /// Translate a host mouse event; coordinates are carried over
    /// unchanged and the modifier set is projected onto the three flags.
    pub fn from(host: HostMouseEvent) -> (r: MouseEvent)
        ensures
            r == spec_mouse_event_from(host),
    {
        let kind = MouseEventKind::from(host.kind);
        let column = host.column;
        let row = host.row;
        let modifiers = KeyModifiers::from(host.modifiers);
        MouseEvent { kind, column, row, modifiers }
    }
}

} // verus!
