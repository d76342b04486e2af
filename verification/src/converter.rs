//! Turning a session's raw input streams into one stream of terminal
//! events, with optional idle kick and countdown.
use vstd::prelude::*;
use crate::idle::{
    countdown_overflows, kick_warning_secs, spec_countdown_overflows, spec_kick_warning_secs, spec_saturating_elapsed,
};
use crate::input::{convert_data_to_terminal_event, spec_terminal_event, TerminalEvent};

verus! {

/// What an idle tick asks the converter to do.
#[derive(Clone, Copy, Debug, PartialEq, Eq, Structural)]
pub enum IdleOutcome {
    /// The client has been idle too long: stop (and finish with `Quit`).
    Stop,
    /// Emit this countdown.
    Warn(u32),
    /// Nothing to emit.
    Nothing,
}

/// State of one converter.
///
/// Idle behaviour:
/// - `idle_kick = None`: no idle tracking.
/// - `idle_kick = Some(d)`, `idle_warning = None`: stop after `d` of no key.
/// - `idle_kick = Some(d)`, `idle_warning = Some(w)`: emit each new
///   countdown value during the last `w` of the idle window, then stop at
///   the deadline.
///
/// Only key events reset the idle clock: resizes and other events do not,
/// since some terminals fire spurious window changes without user input.
/// All times are nanoseconds.
pub struct EventConverter {
    pub last_key: u128,
    pub last_warned_secs: Option<u32>,
    pub idle_kick: Option<u128>,
    pub idle_warning: Option<u128>,
    /// The client's byte stream is still open.
    pub data_open: bool,
    /// The client's window-change stream is still open.
    pub resize_open: bool,
    /// The event stream has ended (with `Quit`).
    pub stopped: bool,
}

/// What the converter reacts to, one at a time.
pub enum ConverterInput {
    /// A chunk of client bytes.
    Bytes(Vec<u8>),
    /// A window change `(cols, rows)`.
    Resize(u32, u32),
    /// One raw stream ended.
    Closed(InputStream),
    /// The idle ticker fired.
    Tick,
    /// Whoever reads the events has gone away.
    ConsumerGone,
}

/// One of the two raw input streams of a session.
#[derive(Clone, Copy, Debug, PartialEq, Eq, Structural)]
pub enum InputStream {
    /// The client's bytes.
    Data,
    /// The client's window changes.
    Resize,
}

/// `v` clamped to the `u16` range.
pub open spec fn spec_clamp_u16(v: u32) -> u16 {
    if v > 0xffff { 0xffffu16 } else { v as u16 }
}

impl EventConverter {
    /// The effect of one chunk of client bytes at `now`: the decoded event,
    /// and a reset idle clock when it is a key.
    pub open spec fn spec_after_bytes(self, data: Seq<u8>, now: u128) -> EventConverter {
        match spec_terminal_event(data) {
            Some(TerminalEvent::Key(_)) => EventConverter { last_key: now, last_warned_secs: None, ..self },
            _ => self,
        }
    }

    /// What the idle tick at `now` decides (idle tracking on).
    pub open spec fn spec_idle_outcome(&self, now: u128) -> IdleOutcome {
        let kick = self.idle_kick.unwrap();
        if spec_saturating_elapsed(self.last_key, now) >= kick {
            IdleOutcome::Stop
        } else {
            match self.idle_warning {
                Some(warn) => match spec_kick_warning_secs(self.last_key, now, kick, warn) {
                    Some(secs) => if self.last_warned_secs != Some(secs) {
                        IdleOutcome::Warn(secs)
                    } else {
                        IdleOutcome::Nothing
                    },
                    None => IdleOutcome::Nothing,
                },
                None => IdleOutcome::Nothing,
            }
        }
    }

    /// The converter after the idle tick at `now`: a countdown value it
    /// emits is remembered.
    pub open spec fn spec_after_idle(self, now: u128) -> EventConverter {
        match self.spec_idle_outcome(now) {
            IdleOutcome::Warn(secs) => EventConverter { last_warned_secs: Some(secs), ..self },
            _ => self,
        }
    }

    /// The countdown at `now` can be computed without overflow.
    pub open spec fn spec_tick_ok(&self, now: u128) -> bool {
        match (self.idle_kick, self.idle_warning) {
            (Some(kick), Some(warn)) => !spec_countdown_overflows(self.last_key, now, kick, warn),
            _ => true,
        }
    }

    /// A converter started at `now`.
    pub fn new(now: u128, idle_kick: Option<u128>, idle_warning: Option<u128>) -> (c: EventConverter)
        ensures
            c == (EventConverter {
                last_key: now,
                last_warned_secs: None,
                idle_kick,
                idle_warning,
                data_open: true,
                resize_open: true,
                stopped: false,
            }),
    {
        EventConverter {
            last_key: now,
            last_warned_secs: None,
            idle_kick,
            idle_warning,
            data_open: true,
            resize_open: true,
            stopped: false,
        }
    }

    /// The converter after `which` stream ended.
    pub open spec fn spec_after_closed(self, which: InputStream) -> EventConverter {
        match which {
            InputStream::Data => EventConverter { data_open: false, ..self },
            InputStream::Resize => EventConverter { resize_open: false, ..self },
        }
    }

    /// One raw stream ended: it is marked closed, and the converter stops
    /// (finishing with `Quit`, the client having disconnected) once both
    /// streams have ended.
    pub fn on_stream_closed(&mut self, which: InputStream) -> (stop: bool)
        ensures
            *final(self) == old(self).spec_after_closed(which),
            stop == (!final(self).data_open && !final(self).resize_open),
    {
        match which {
            InputStream::Data => self.data_open = false,
            InputStream::Resize => self.resize_open = false,
        }
        !self.data_open && !self.resize_open
    }

    /// Whether idle ticks are to be handled at all.
    pub fn tracks_idle(&self) -> (r: bool)
        ensures
            r == self.idle_kick is Some,
    {
        self.idle_kick.is_some()
    }

    /// Decode one chunk of client bytes received at `now`; a key restarts the
    /// idle clock and re-arms the countdown.
    pub fn on_bytes(&mut self, data: &[u8], now: u128) -> (event: Option<TerminalEvent>)
        ensures
            event == spec_terminal_event(data@),
            *final(self) == old(self).spec_after_bytes(data@, now),
    {
        let event = convert_data_to_terminal_event(data);
        if let Some(TerminalEvent::Key(_)) = event {
            self.last_key = now;
            self.last_warned_secs = None;
        }
        event
    }

    /// A window change `(cols, rows)`, each clamped to `u16`.
    pub fn on_resize(width: u32, height: u32) -> (event: TerminalEvent)
        ensures
            event == TerminalEvent::Resize(spec_clamp_u16(width), spec_clamp_u16(height)),
    {
        let w: u16 = if width > 0xffff { 0xffff } else { width as u16 };
        let h: u16 = if height > 0xffff { 0xffff } else { height as u16 };
        TerminalEvent::Resize(w, h)
    }

    /// Whether the idle tick at `now` can compute its countdown.
    pub fn tick_ok(&self, now: u128) -> (r: bool)
        ensures
            r == self.spec_tick_ok(now),
    {
        match (self.idle_kick, self.idle_warning) {
            (Some(kick), Some(warn)) => !countdown_overflows(self.last_key, now, kick, warn),
            _ => true,
        }
    }

    /// The idle tick at `now`: stop once the deadline passed; else, during
    /// the countdown window, emit each countdown value once.
    pub fn on_idle_tick(&mut self, now: u128) -> (outcome: IdleOutcome)
        requires
            old(self).idle_kick is Some,
            old(self).spec_tick_ok(now),
        ensures
            outcome == old(self).spec_idle_outcome(now),
            *final(self) == old(self).spec_after_idle(now),
    {
        let kick = match self.idle_kick {
            Some(k) => k,
            None => 0,
        };
        let elapsed: u128 = if now >= self.last_key { now - self.last_key } else { 0 };
        if elapsed >= kick {
            return IdleOutcome::Stop;
        }
        match self.idle_warning {
            Some(warn) => match kick_warning_secs(self.last_key, now, kick, warn) {
                Some(secs) => {
                    if self.last_warned_secs != Some(secs) {
                        self.last_warned_secs = Some(secs);
                        IdleOutcome::Warn(secs)
                    } else {
                        IdleOutcome::Nothing
                    }
                },
                None => IdleOutcome::Nothing,
            },
            None => IdleOutcome::Nothing,
        }
    }

    /// The converter and the events it emits after `input` at `now`: nothing
    /// once stopped; a decoded chunk of bytes (a key restarting the idle
    /// clock); a clamped window change; when the second raw stream ends, or
    /// the idle deadline passes, or the reader is gone, `Quit` and a stop;
    /// during the countdown window each new countdown value once.
    pub open spec fn spec_step(self, input: ConverterInput, now: u128) -> (EventConverter, Seq<TerminalEvent>) {
        if self.stopped {
            (self, Seq::empty())
        } else {
            match input {
                ConverterInput::Bytes(d) => (
                    self.spec_after_bytes(d@, now),
                    match spec_terminal_event(d@) {
                        Some(e) => seq![e],
                        None => Seq::empty(),
                    },
                ),
                ConverterInput::Resize(w, h) => (
                    self,
                    seq![TerminalEvent::Resize(spec_clamp_u16(w), spec_clamp_u16(h))],
                ),
                ConverterInput::Closed(which) => {
                    let t = self.spec_after_closed(which);
                    if !t.data_open && !t.resize_open {
                        (EventConverter { stopped: true, ..t }, seq![TerminalEvent::Quit])
                    } else {
                        (t, Seq::empty())
                    }
                },
                ConverterInput::Tick => if self.idle_kick is None {
                    (self, Seq::empty())
                } else {
                    match self.spec_idle_outcome(now) {
                        IdleOutcome::Stop => (EventConverter { stopped: true, ..self }, seq![TerminalEvent::Quit]),
                        IdleOutcome::Warn(secs) => (self.spec_after_idle(now), seq![TerminalEvent::IdleWarning(secs)]),
                        IdleOutcome::Nothing => (self, Seq::empty()),
                    }
                },
                ConverterInput::ConsumerGone => (EventConverter { stopped: true, ..self }, seq![TerminalEvent::Quit]),
            }
        }
    }

    /// React to `input` at `now`, as `spec_step` says, returning the events
    /// to emit in order. An idle tick needs its countdown to be computable.
    pub fn step(&mut self, input: ConverterInput, now: u128) -> (out: Vec<TerminalEvent>)
        requires
            !old(self).stopped && input is Tick && old(self).idle_kick is Some ==> old(self).spec_tick_ok(now),
        ensures
            (*final(self), out@) == old(self).spec_step(input, now),
    {
        let mut out: Vec<TerminalEvent> = Vec::new();
        if self.stopped {
            return out;
        }
        match input {
            ConverterInput::Bytes(d) => {
                if let Some(e) = self.on_bytes(d.as_slice(), now) {
                    out.push(e);
                }
            },
            ConverterInput::Resize(w, h) => {
                out.push(Self::on_resize(w, h));
            },
            ConverterInput::Closed(which) => {
                if self.on_stream_closed(which) {
                    self.stopped = true;
                    out.push(Self::final_event());
                }
            },
            ConverterInput::Tick => {
                if self.tracks_idle() {
                    match self.on_idle_tick(now) {
                        IdleOutcome::Stop => {
                            self.stopped = true;
                            out.push(Self::final_event());
                        },
                        IdleOutcome::Warn(secs) => out.push(TerminalEvent::IdleWarning(secs)),
                        IdleOutcome::Nothing => {},
                    }
                }
            },
            ConverterInput::ConsumerGone => {
                self.stopped = true;
                out.push(Self::final_event());
            },
        }
        proof {
            assert(out@ =~= old(self).spec_step(input, now).1);
        }
        out
    }

    /// The event that ends the stream.
    pub fn final_event() -> (event: TerminalEvent)
        ensures
            event == TerminalEvent::Quit,
    {
        TerminalEvent::Quit
    }
}

// ---------------------------------------------------------------------------
// Laws
// ---------------------------------------------------------------------------

/// The converter and everything it emits after reacting to `inputs` (each
/// with its time) in turn.
pub open spec fn spec_run(c: EventConverter, inputs: Seq<(ConverterInput, u128)>) -> (
    EventConverter,
    Seq<TerminalEvent>,
)
    decreases inputs.len(),
{
    if inputs.len() == 0 {
        (c, Seq::empty())
    } else {
        let before = spec_run(c, inputs.drop_last());
        let after = before.0.spec_step(inputs.last().0, inputs.last().1);
        (after.0, before.1 + after.1)
    }
}

/// `Quit` ends the event stream: whatever the inputs, it is emitted at most
/// once and only as the last event, and exactly when the converter has
/// stopped; once stopped, nothing more is emitted.
pub proof fn lemma_quit_ends_the_stream(c: EventConverter, inputs: Seq<(ConverterInput, u128)>)
    requires
        !c.stopped,
    ensures
        forall|i: int|
            0 <= i < spec_run(c, inputs).1.len() && #[trigger] spec_run(c, inputs).1[i] is Quit ==> i
                == spec_run(c, inputs).1.len() - 1,
        spec_run(c, inputs).0.stopped <==> (spec_run(c, inputs).1.len() > 0 && spec_run(c, inputs).1.last() is Quit),
        forall|input: ConverterInput, now: u128|
            spec_run(c, inputs).0.stopped ==> #[trigger] spec_run(c, inputs).0.spec_step(input, now) == (
                spec_run(c, inputs).0,
                Seq::<TerminalEvent>::empty(),
            ),
    decreases inputs.len(),
{
    if inputs.len() > 0 {
        lemma_quit_ends_the_stream(c, inputs.drop_last());
        let before = spec_run(c, inputs.drop_last());
        let after = before.0.spec_step(inputs.last().0, inputs.last().1);
        let out = before.1 + after.1;
        assert(spec_run(c, inputs).1 == out);
        if !before.0.stopped {
            assert forall|i: int| 0 <= i < before.1.len() implies !(before.1[i] is Quit) by {
                if before.1[i] is Quit {
                    assert(i == before.1.len() - 1);
                }
            }
            match inputs.last().0 {
                ConverterInput::Bytes(d) => {
                    match spec_terminal_event(d@) {
                        Some(e) => assert(!(e is Quit)),
                        None => {},
                    }
                },
                _ => {},
            }
            assert forall|i: int| 0 <= i < out.len() && #[trigger] out[i] is Quit implies i == out.len() - 1 by {
                if i < before.1.len() {
                    assert(out[i] == before.1[i]);
                }
            }
        } else {
            assert(out =~= before.1);
        }
    }
}

/// Only key events restart the idle clock: any other input (a resize
/// command, undecodable bytes) leaves the converter as it was.
pub proof fn lemma_only_keys_reset_idle(c: EventConverter, data: Seq<u8>, now: u128)
    ensures
        !(spec_terminal_event(data) matches Some(TerminalEvent::Key(_))) ==> c.spec_after_bytes(data, now)
            == c,
        (spec_terminal_event(data) matches Some(TerminalEvent::Key(_))) ==> c.spec_after_bytes(
            data,
            now,
        ).last_key == now,
{
}

/// Each countdown value is emitted once: right after a tick emitted `secs`,
/// a tick whose countdown is still `secs` emits nothing.
pub proof fn lemma_warning_not_repeated(c: EventConverter, now1: u128, now2: u128, secs: u32)
    requires
        c.idle_kick is Some,
        c.spec_idle_outcome(now1) == IdleOutcome::Warn(secs),
        c.idle_warning is Some,
        spec_kick_warning_secs(c.last_key, now2, c.idle_kick.unwrap(), c.idle_warning.unwrap()) == Some(
            secs,
        ),
    ensures
        c.spec_after_idle(now1).spec_idle_outcome(now2) == IdleOutcome::Nothing,
{
}

/// A key press re-arms the countdown: the next tick inside the warning
/// window emits its value even if the same value was emitted before.
pub proof fn lemma_key_rearms_warning(c: EventConverter, data: Seq<u8>, now: u128, later: u128)
    requires
        spec_terminal_event(data) matches Some(TerminalEvent::Key(_)),
        c.idle_kick is Some,
        c.idle_warning is Some,
        spec_saturating_elapsed(now, later) < c.idle_kick.unwrap(),
        spec_kick_warning_secs(now, later, c.idle_kick.unwrap(), c.idle_warning.unwrap()) is Some,
    ensures
        c.spec_after_bytes(data, now).spec_idle_outcome(later) == IdleOutcome::Warn(
            spec_kick_warning_secs(now, later, c.idle_kick.unwrap(), c.idle_warning.unwrap()).unwrap(),
        ),
{
}

/// A window change does not count as activity: it leaves the converter's
/// state (idle clock and countdown included) as it was and emits one resize
/// event, so the idle ticks that follow decide exactly as without it.
pub proof fn lemma_resize_is_not_activity(c: EventConverter, w: u32, h: u32, now: u128, later: u128)
    requires
        !c.stopped,
    ensures
        c.spec_step(ConverterInput::Resize(w, h), now).0 == c,
        c.spec_step(ConverterInput::Resize(w, h), now).1.len() == 1,
        c.spec_step(ConverterInput::Resize(w, h), now).1[0] is Resize,
        c.spec_step(ConverterInput::Resize(w, h), now).0.spec_step(ConverterInput::Tick, later) == c.spec_step(
            ConverterInput::Tick,
            later,
        ),
{
}

} // verus!
