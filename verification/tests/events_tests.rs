use helix_plugins::events::{
    HostKeyCode, HostKeyEvent, HostKeyModifiers, HostMouseButton, HostMouseEvent,
    HostMouseEventKind, KeyCode, KeyEvent, KeyModifiers, MouseButton, MouseEvent, MouseEventKind,
    HOST_MOD_ALT, HOST_MOD_CONTROL, HOST_MOD_SHIFT,
};

#[test]
fn key_press_char_a_without_modifiers() {
    let host = HostKeyEvent {
        code: HostKeyCode::Char('a'),
        modifiers: HostKeyModifiers { bits: 0 },
    };
    let event = KeyEvent::from(host);
    assert_eq!(event.code, KeyCode::Char('a'));
    assert_eq!(
        event.modifiers,
        KeyModifiers { shift: false, control: false, alt: false }
    );
}

#[test]
fn modifier_bits_project_onto_three_flags() {
    let all = KeyModifiers::from(HostKeyModifiers {
        bits: HOST_MOD_SHIFT | HOST_MOD_CONTROL | HOST_MOD_ALT,
    });
    assert_eq!(all, KeyModifiers { shift: true, control: true, alt: true });

    let shift_only = KeyModifiers::from(HostKeyModifiers { bits: HOST_MOD_SHIFT });
    assert_eq!(shift_only, KeyModifiers { shift: true, control: false, alt: false });
}

#[test]
fn unknown_modifier_bits_are_dropped() {
    // Bits beyond the three known flags name modifiers the event model drops.
    let m = KeyModifiers::from(HostKeyModifiers { bits: 0b0011_1000 });
    assert_eq!(m, KeyModifiers { shift: false, control: false, alt: false });

    let mixed = KeyModifiers::from(HostKeyModifiers { bits: 0b0000_1001 });
    assert_eq!(mixed, KeyModifiers { shift: true, control: false, alt: false });
}

#[test]
fn key_codes_map_one_to_one() {
    assert_eq!(KeyCode::from(HostKeyCode::Backspace), KeyCode::Backspace);
    assert_eq!(KeyCode::from(HostKeyCode::Enter), KeyCode::Enter);
    assert_eq!(KeyCode::from(HostKeyCode::BackTab), KeyCode::BackTab);
    assert_eq!(KeyCode::from(HostKeyCode::F(5)), KeyCode::F(5));
    assert_eq!(KeyCode::from(HostKeyCode::Char('Z')), KeyCode::Char('Z'));
    assert_eq!(KeyCode::from(HostKeyCode::Null), KeyCode::Null);
    assert_eq!(KeyCode::from(HostKeyCode::Esc), KeyCode::Esc);
}

#[test]
fn scroll_down_mouse_event_keeps_coordinates() {
    let host = HostMouseEvent {
        kind: HostMouseEventKind::ScrollDown,
        column: 10,
        row: 5,
        modifiers: HostKeyModifiers { bits: 0 },
    };
    let event = MouseEvent::from(host);
    assert_eq!(event.kind, MouseEventKind::ScrollDown);
    assert_eq!(event.column, 10);
    assert_eq!(event.row, 5);
    assert_eq!(
        event.modifiers,
        KeyModifiers { shift: false, control: false, alt: false }
    );
}

#[test]
fn mouse_buttons_carry_over() {
    let host = HostMouseEvent {
        kind: HostMouseEventKind::Down(HostMouseButton::Middle),
        column: 0,
        row: 0,
        modifiers: HostKeyModifiers { bits: HOST_MOD_CONTROL },
    };
    let event = MouseEvent::from(host);
    assert_eq!(event.kind, MouseEventKind::Down(MouseButton::Middle));
    assert!(event.modifiers.control);
    assert_eq!(
        MouseEventKind::from(HostMouseEventKind::Drag(HostMouseButton::Right)),
        MouseEventKind::Drag(MouseButton::Right)
    );
    assert_eq!(MouseEventKind::from(HostMouseEventKind::Moved), MouseEventKind::Moved);
}
