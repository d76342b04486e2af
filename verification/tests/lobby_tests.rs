use sshhub::idle::NANOS_PER_SEC;
use sshhub::input::KeyCode;
use sshhub::input::{KeyEvent, KeyModifiers, TerminalEvent};
use sshhub::lobby::{LobbyState, TickAction, HUB_LOBBY_IDLE, KICK_WARNING_REMAINING};

const S: u128 = NANOS_PER_SEC;

fn lobby(n: usize) -> LobbyState {
    LobbyState::hub(n, 0, (80, 24), None)
}

#[test]
fn fresh_lobby() {
    let l = lobby(3);
    assert_eq!(l.selected_idx, 0);
    assert!(l.dirty);
    assert!(l.is_running());
    assert_eq!(l.selected, None);
    assert_eq!(l.kick_after, HUB_LOBBY_IDLE);
    assert_eq!(l.warning_within, KICK_WARNING_REMAINING);
    assert_eq!((l.current_width, l.current_height), (80, 24));
}

#[test]
fn up_wraps_to_the_last_game() {
    let mut l = lobby(3);
    l.on_key(KeyCode::Up);
    assert_eq!(l.selected_idx, 2);
    l.on_key(KeyCode::Char('k'));
    assert_eq!(l.selected_idx, 1);
}

#[test]
fn down_wraps_to_the_first_game() {
    let mut l = lobby(3);
    l.on_key(KeyCode::Down);
    l.on_key(KeyCode::Char('j'));
    assert_eq!(l.selected_idx, 2);
    l.on_key(KeyCode::Down);
    assert_eq!(l.selected_idx, 0);
}

#[test]
fn up_then_down_returns() {
    let mut l = lobby(4);
    l.on_key(KeyCode::Down);
    l.on_key(KeyCode::Up);
    l.on_key(KeyCode::Down);
    assert_eq!(l.selected_idx, 1);
}

#[test]
fn down_as_many_times_as_games_returns() {
    let mut l = lobby(5);
    l.on_key(KeyCode::Down);
    for _ in 0..5 {
        l.on_key(KeyCode::Down);
    }
    assert_eq!(l.selected_idx, 1);
}

#[test]
fn enter_picks_the_highlighted_game() {
    let mut l = lobby(3);
    l.on_key(KeyCode::Down);
    l.on_key(KeyCode::Enter);
    assert_eq!(l.selected, Some(1));
    assert!(!l.is_running());
}

#[test]
fn digit_picks_the_numbered_game() {
    let mut l = lobby(3);
    l.on_key(KeyCode::Char('3'));
    assert_eq!(l.selected, Some(2));
    assert_eq!(l.selected_idx, 0);
}

#[test]
fn digit_beyond_the_catalogue_does_nothing() {
    let mut l = lobby(3);
    l.on_key(KeyCode::Char('4'));
    assert_eq!(l.selected, None);
    assert!(l.is_running());
}

#[test]
fn digit_zero_does_nothing() {
    let mut l = lobby(3);
    l.on_key(KeyCode::Char('0'));
    assert_eq!(l.selected, None);
    l.on_data(b"0", 5);
    assert_eq!(l.selected, None);
    assert!(l.is_running());
}

#[test]
fn escape_leaves() {
    let mut l = lobby(3);
    l.on_key(KeyCode::Esc);
    assert!(l.quit);
    assert!(!l.is_running());
}

#[test]
fn other_keys_do_nothing() {
    let mut l = lobby(3);
    l.dirty = false;
    l.on_key(KeyCode::Tab);
    l.on_key(KeyCode::Char('x'));
    assert_eq!(l.selected_idx, 0);
    assert!(!l.dirty);
    assert!(l.is_running());
}

#[test]
fn empty_catalogue_keeps_the_highlight_and_picks_nothing() {
    let mut l = lobby(0);
    l.on_key(KeyCode::Up);
    assert_eq!(l.selected_idx, 0);
    l.on_key(KeyCode::Down);
    assert_eq!(l.selected_idx, 0);
    l.on_key(KeyCode::Enter);
    assert_eq!(l.selected, None);
    assert!(l.is_running());
}

#[test]
fn input_bytes_drive_the_lobby() {
    let mut l = lobby(3);
    l.on_data(b"\x1b[B", 5 * S);
    assert_eq!(l.selected_idx, 1);
    assert_eq!(l.last_input_at, 5 * S);
    l.on_data(b"\r", 6 * S);
    assert_eq!(l.selected, Some(1));
}

#[test]
fn undecodable_bytes_change_nothing() {
    let mut l = lobby(3);
    l.on_data(b"zz", 9 * S);
    assert_eq!(l.last_input_at, 0);
    assert_eq!(l.selected_idx, 0);
}

#[test]
fn resize_bytes_restart_the_clock_but_not_the_size() {
    let mut l = lobby(3);
    l.on_data(&[4, 100, 40], 3 * S);
    assert_eq!(l.last_input_at, 3 * S);
    assert_eq!((l.current_width, l.current_height), (80, 24));
}

#[test]
fn any_input_clears_the_flash_message() {
    let mut l = LobbyState::hub(2, 0, (80, 24), Some(String::from("could not connect")));
    l.dirty = false;
    l.on_event(TerminalEvent::Resize(1, 1), 2 * S);
    assert_eq!(l.flash, None);
    assert!(l.dirty);
    assert_eq!(l.last_input_at, 2 * S);
}

#[test]
fn key_event_applies_the_key() {
    let mut l = lobby(2);
    l.on_event(TerminalEvent::Key(KeyEvent::new(KeyCode::Down, KeyModifiers::empty())), S);
    assert_eq!(l.selected_idx, 1);
}

#[test]
fn window_change_records_the_size() {
    let mut l = lobby(2);
    l.dirty = false;
    l.on_resize(120, 40);
    assert_eq!((l.current_width, l.current_height), (120, 40));
    assert!(l.dirty);
}

#[test]
fn closed_input_leaves() {
    let mut l = lobby(2);
    l.on_input_closed();
    assert!(l.quit);
}

#[test]
fn first_tick_draws_then_waits() {
    let mut l = lobby(2);
    assert_eq!(l.on_tick(S), TickAction::Draw(None));
    assert!(!l.dirty);
    assert_eq!(l.on_tick(2 * S), TickAction::Wait);
}

#[test]
fn tick_in_the_warning_window_draws_the_countdown() {
    let mut l = lobby(2);
    l.dirty = false;
    assert_eq!(l.on_tick(55 * S), TickAction::Draw(Some(5)));
    assert_eq!(l.on_tick(59 * S + 1), TickAction::Draw(Some(1)));
}

#[test]
fn tick_past_the_deadline_kicks() {
    let mut l = lobby(2);
    assert_eq!(l.on_tick(60 * S), TickAction::Kick);
    assert!(l.quit);
    assert!(!l.is_running());
}

#[test]
fn input_postpones_the_kick() {
    let mut l = lobby(2);
    l.on_data(b"x", 50 * S);
    l.dirty = false;
    assert_eq!(l.on_tick(60 * S), TickAction::Wait);
    assert_eq!(l.on_tick(110 * S), TickAction::Kick);
}

#[test]
fn custom_kick_threshold() {
    let mut l = LobbyState::new(1, 0, (80, 24), None, 30 * S, 10 * S);
    l.dirty = false;
    assert_eq!(l.on_tick(25 * S), TickAction::Draw(Some(5)));
    assert_eq!(l.on_tick(30 * S), TickAction::Kick);
}

#[test]
fn hub_ticks_never_overflow() {
    let l = lobby(1);
    assert!(l.tick_ok(0));
    assert!(l.tick_ok(59 * S + 1));
    let huge = LobbyState::new(1, 0, (1, 1), None, (u32::MAX as u128) * S + 1, u128::MAX);
    assert!(!huge.tick_ok(0));
}
