use sshhub::input::{
    convert_data_to_key_event, convert_data_to_terminal_event, KeyCode, KeyEvent, KeyEventKind,
    KeyModifiers, TerminalEvent, CMD_RESIZE,
};

fn key(code: KeyCode) -> Option<TerminalEvent> {
    Some(TerminalEvent::Key(KeyEvent::new(code, KeyModifiers::empty())))
}

#[test]
fn arrow_keys() {
    assert_eq!(convert_data_to_terminal_event(b"\x1b[A"), key(KeyCode::Up));
    assert_eq!(convert_data_to_terminal_event(b"\x1b[B"), key(KeyCode::Down));
    assert_eq!(convert_data_to_terminal_event(b"\x1b[C"), key(KeyCode::Right));
    assert_eq!(convert_data_to_terminal_event(b"\x1b[D"), key(KeyCode::Left));
}

#[test]
fn control_keys() {
    assert_eq!(convert_data_to_terminal_event(b"\x03"), key(KeyCode::Esc));
    assert_eq!(convert_data_to_terminal_event(b"\x1b"), key(KeyCode::Esc));
    assert_eq!(convert_data_to_terminal_event(b"\r"), key(KeyCode::Enter));
    assert_eq!(convert_data_to_terminal_event(b"\x7f"), key(KeyCode::Backspace));
    assert_eq!(convert_data_to_terminal_event(b"\x1b[3~"), key(KeyCode::Delete));
    assert_eq!(convert_data_to_terminal_event(b"\t"), key(KeyCode::Tab));
}

#[test]
fn single_bytes_are_characters() {
    assert_eq!(convert_data_to_terminal_event(b"q"), key(KeyCode::Char('q')));
    assert_eq!(convert_data_to_terminal_event(b"7"), key(KeyCode::Char('7')));
    assert_eq!(convert_data_to_terminal_event(&[0xe9]), key(KeyCode::Char('\u{e9}')));
    assert_eq!(convert_data_to_terminal_event(&[CMD_RESIZE]), key(KeyCode::Char('\u{4}')));
}

#[test]
fn resize_command() {
    assert_eq!(
        convert_data_to_terminal_event(&[CMD_RESIZE, 80, 24]),
        Some(TerminalEvent::Resize(80, 24))
    );
    assert_eq!(
        convert_data_to_terminal_event(&[CMD_RESIZE, 255, 0]),
        Some(TerminalEvent::Resize(255, 0))
    );
}

#[test]
fn resize_command_of_wrong_length_is_ignored() {
    assert_eq!(convert_data_to_terminal_event(&[CMD_RESIZE, 80]), None);
    assert_eq!(convert_data_to_terminal_event(&[CMD_RESIZE, 80, 24, 1]), None);
}

#[test]
fn unknown_sequences_decode_to_nothing() {
    assert_eq!(convert_data_to_terminal_event(b""), None);
    assert_eq!(convert_data_to_terminal_event(b"ab"), None);
    assert_eq!(convert_data_to_terminal_event(b"\x1b[E"), None);
    assert_eq!(convert_data_to_key_event(b"\x1b[3"), None);
}

#[test]
fn key_events_are_presses_without_modifiers() {
    let e = convert_data_to_key_event(b"x").unwrap();
    assert_eq!(e.code, KeyCode::Char('x'));
    assert_eq!(e.kind, KeyEventKind::Press);
    assert_eq!(e.modifiers.bits, 0);
    assert_eq!(e.state, 0);
}
