use sshhub::converter::{ConverterInput, EventConverter, IdleOutcome, InputStream};
use sshhub::idle::NANOS_PER_SEC;
use sshhub::input::{KeyCode, KeyEvent, KeyModifiers, TerminalEvent};

const S: u128 = NANOS_PER_SEC;

#[test]
fn key_bytes_are_forwarded_and_reset_the_idle_clock() {
    let mut c = EventConverter::new(0, Some(60 * S), Some(10 * S));
    c.last_warned_secs = Some(3);
    let ev = c.on_bytes(b"a", 42 * S);
    assert_eq!(ev, Some(TerminalEvent::Key(KeyEvent::new(KeyCode::Char('a'), KeyModifiers::empty()))));
    assert_eq!(c.last_key, 42 * S);
    assert_eq!(c.last_warned_secs, None);
}

#[test]
fn resize_bytes_do_not_reset_the_idle_clock() {
    let mut c = EventConverter::new(0, Some(60 * S), None);
    let ev = c.on_bytes(&[4, 90, 30], 42 * S);
    assert_eq!(ev, Some(TerminalEvent::Resize(90, 30)));
    assert_eq!(c.last_key, 0);
}

#[test]
fn undecodable_bytes_produce_nothing() {
    let mut c = EventConverter::new(0, None, None);
    assert_eq!(c.on_bytes(b"xyz", 5 * S), None);
    assert_eq!(c.last_key, 0);
}

#[test]
fn window_changes_are_clamped_to_u16() {
    assert_eq!(EventConverter::on_resize(80, 24), TerminalEvent::Resize(80, 24));
    assert_eq!(EventConverter::on_resize(70_000, 65_535), TerminalEvent::Resize(65_535, 65_535));
}

#[test]
fn idle_tracking_is_off_without_a_kick() {
    assert!(!EventConverter::new(0, None, Some(S)).tracks_idle());
    assert!(EventConverter::new(0, Some(S), None).tracks_idle());
}

#[test]
fn idle_kick_stops_the_stream() {
    let mut c = EventConverter::new(0, Some(60 * S), None);
    assert_eq!(c.on_idle_tick(59 * S), IdleOutcome::Nothing);
    assert_eq!(c.on_idle_tick(60 * S), IdleOutcome::Stop);
}

#[test]
fn countdown_values_are_emitted_once_each() {
    let mut c = EventConverter::new(0, Some(60 * S), Some(10 * S));
    assert_eq!(c.on_idle_tick(49 * S), IdleOutcome::Nothing);
    assert_eq!(c.on_idle_tick(55 * S), IdleOutcome::Warn(5));
    assert_eq!(c.on_idle_tick(55 * S + S / 5), IdleOutcome::Nothing);
    assert_eq!(c.on_idle_tick(56 * S), IdleOutcome::Warn(4));
    assert_eq!(c.last_warned_secs, Some(4));
}

#[test]
fn a_key_rearms_the_countdown() {
    let mut c = EventConverter::new(0, Some(60 * S), Some(10 * S));
    assert_eq!(c.on_idle_tick(55 * S), IdleOutcome::Warn(5));
    c.on_bytes(b"k", 60 * S);
    assert_eq!(c.on_idle_tick(115 * S), IdleOutcome::Warn(5));
}

#[test]
fn stream_ends_with_quit() {
    assert_eq!(EventConverter::final_event(), TerminalEvent::Quit);
}

#[test]
fn converter_ticks_never_overflow_without_countdown() {
    assert!(EventConverter::new(0, Some(S), None).tick_ok(0));
    assert!(EventConverter::new(0, None, None).tick_ok(0));
    assert!(EventConverter::new(0, Some(60 * S), Some(10 * S)).tick_ok(55 * S));
    assert!(!EventConverter::new(0, Some((u32::MAX as u128) * S + 1), Some(u128::MAX)).tick_ok(0));
}

#[test]
fn stream_ends_only_when_both_inputs_close() {
    let mut c = EventConverter::new(0, None, None);
    assert!(!c.on_stream_closed(InputStream::Resize));
    assert!(c.data_open && !c.resize_open);
    assert!(c.on_stream_closed(InputStream::Data));
    let mut d = EventConverter::new(0, None, None);
    assert!(!d.on_stream_closed(InputStream::Data));
    assert!(d.on_stream_closed(InputStream::Resize));
}

#[test]
fn stream_ends_with_a_single_quit() {
    let mut c = EventConverter::new(0, None, None);
    assert_eq!(c.step(ConverterInput::Bytes(b"q".to_vec()), 1).len(), 1);
    assert_eq!(c.step(ConverterInput::Resize(90, 30), 2), vec![TerminalEvent::Resize(90, 30)]);
    assert!(c.step(ConverterInput::Closed(InputStream::Data), 3).is_empty());
    assert_eq!(c.step(ConverterInput::Closed(InputStream::Resize), 4), vec![TerminalEvent::Quit]);
    assert!(c.stopped);
    assert!(c.step(ConverterInput::Bytes(b"q".to_vec()), 5).is_empty());
    assert!(c.step(ConverterInput::ConsumerGone, 6).is_empty());
}

#[test]
fn idle_deadline_ends_the_stream() {
    let mut c = EventConverter::new(0, Some(60 * S), Some(10 * S));
    assert!(c.step(ConverterInput::Tick, 10 * S).is_empty());
    assert_eq!(c.step(ConverterInput::Tick, 55 * S), vec![TerminalEvent::IdleWarning(5)]);
    assert_eq!(c.step(ConverterInput::Tick, 60 * S), vec![TerminalEvent::Quit]);
    assert!(c.step(ConverterInput::Tick, 61 * S).is_empty());
}
