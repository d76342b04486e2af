//! The lobby: the menu a user navigates to pick a game, as a state machine
//! driven by client input, resizes and a draw tick.
use vstd::prelude::*;
use crate::idle::{
    countdown_overflows, kick_warning_secs, spec_countdown_overflows, spec_kick_warning_secs,
    spec_saturating_elapsed,
};
use crate::input::{convert_data_to_terminal_event, spec_terminal_event, KeyCode, TerminalEvent};

verus! {

/// Idle threshold of the hub lobby, in nanoseconds (60 s).
pub const HUB_LOBBY_IDLE: u128 = 60_000_000_000;

/// How long before the kick the countdown is shown, in nanoseconds (10 s).
pub const KICK_WARNING_REMAINING: u128 = 10_000_000_000;

/// What the draw tick asks the session to do.
#[derive(Clone, Copy, Debug, PartialEq, Eq, Structural)]
pub enum TickAction {
    /// The user has been idle past the deadline: leave the lobby.
    Kick,
    /// Redraw the lobby, with the kick countdown when it is due.
    Draw(Option<u32>),
    /// Nothing changed: no redraw.
    Wait,
}

/// State of one lobby visit.
pub struct LobbyState {
    /// Number of games on offer.
    pub n_games: usize,
    /// Highlighted row.
    pub selected_idx: usize,
    /// The screen must be redrawn at the next tick.
    pub dirty: bool,
    /// Time of the last decoded input, in nanoseconds.
    pub last_input_at: u128,
    /// Client terminal size last reported.
    pub current_width: u32,
    pub current_height: u32,
    /// The game the user picked.
    pub selected: Option<usize>,
    /// The user asked to leave (or the input stream ended, or the idle kick).
    pub quit: bool,
    /// One-off message shown in place of the greeting until the next input.
    pub flash: Option<String>,
    /// Idle span after which the user is kicked, in nanoseconds.
    pub kick_after: u128,
    /// Span before the kick during which the countdown is shown.
    pub warning_within: u128,
}

/// Number of menu rows that navigation cycles through (at least one).
pub open spec fn spec_rows(n_games: usize) -> int {
    if n_games == 0 { 1 } else { n_games as int }
}

/// The game that a digit key picks: `'1'` is the first game.
pub open spec fn spec_digit_index(c: char) -> int {
    (c as u8) - ('1' as u8)
}

impl LobbyState {
    /// The state invariant: the highlight is on a row and a selection names a game.
    pub open spec fn wf(&self) -> bool {
        &&& self.selected_idx < spec_rows(self.n_games)
        &&& self.selected matches Some(i) ==> i < self.n_games
    }

    /// The lobby keeps running until the user picks a game or leaves.
    pub open spec fn spec_running(&self) -> bool {
        !self.quit && self.selected is None
    }

    /// The effect of one key press.
    pub open spec fn spec_on_key(self, code: KeyCode) -> LobbyState {
        let n = spec_rows(self.n_games);
        match code {
            KeyCode::Esc => LobbyState { quit: true, ..self },
            KeyCode::Up | KeyCode::Char('k') => LobbyState {
                selected_idx: ((self.selected_idx + n - 1) % n) as usize,
                dirty: true,
                ..self
            },
            KeyCode::Down | KeyCode::Char('j') => LobbyState {
                selected_idx: ((self.selected_idx + 1) % n) as usize,
                dirty: true,
                ..self
            },
            KeyCode::Enter => LobbyState {
                selected: if self.selected_idx < self.n_games { Some(self.selected_idx) } else { None },
                ..self
            },
            KeyCode::Char(c) => {
                if '0' <= c <= '9' && 0 <= spec_digit_index(c) < self.n_games {
                    LobbyState { selected: Some(spec_digit_index(c) as usize), ..self }
                } else {
                    self
                }
            },
            _ => self,
        }
    }

    /// The effect of one decoded input event received at `now`.
    pub open spec fn spec_on_event(self, event: TerminalEvent, now: u128) -> LobbyState {
        let touched = LobbyState {
            last_input_at: now,
            flash: None,
            dirty: if self.flash is Some { true } else { self.dirty },
            ..self
        };
        match event {
            TerminalEvent::Key(k) => touched.spec_on_key(k.code),
            _ => touched,
        }
    }

    /// The effect of one chunk of client bytes received at `now`.
    pub open spec fn spec_on_data(self, data: Seq<u8>, now: u128) -> LobbyState {
        match spec_terminal_event(data) {
            Some(event) => self.spec_on_event(event, now),
            None => self,
        }
    }

    /// Whether the idle deadline has passed at `now`.
    pub open spec fn spec_deadline_passed(&self, now: u128) -> bool {
        spec_saturating_elapsed(self.last_input_at, now) >= self.kick_after
    }

    /// What the draw tick at `now` decides.
    pub open spec fn spec_tick_action(&self, now: u128) -> TickAction {
        let warning = spec_kick_warning_secs(self.last_input_at, now, self.kick_after, self.warning_within);
        if warning is None && self.spec_deadline_passed(now) {
            TickAction::Kick
        } else if self.dirty || warning is Some {
            TickAction::Draw(warning)
        } else {
            TickAction::Wait
        }
    }

    /// The state after the draw tick at `now`.
    pub open spec fn spec_after_tick(self, now: u128) -> LobbyState {
        match self.spec_tick_action(now) {
            TickAction::Kick => LobbyState { quit: true, ..self },
            TickAction::Draw(_) => LobbyState { dirty: false, ..self },
            TickAction::Wait => self,
        }
    }

    /// The countdown at `now` can be computed without overflow.
    pub open spec fn spec_tick_ok(&self, now: u128) -> bool {
        !spec_countdown_overflows(self.last_input_at, now, self.kick_after, self.warning_within)
    }

    /// A fresh lobby visit: first row highlighted, nothing picked, a
    /// first draw pending, idle clock started at `now`.
    pub fn new(
        n_games: usize,
        now: u128,
        initial_size: (u32, u32),
        flash: Option<String>,
        kick_after: u128,
        warning_within: u128,
    ) -> (s: LobbyState)
        ensures
            s.wf(),
            s == (LobbyState {
                n_games,
                selected_idx: 0,
                dirty: true,
                last_input_at: now,
                current_width: initial_size.0,
                current_height: initial_size.1,
                selected: None,
                quit: false,
                flash,
                kick_after,
                warning_within,
            }),
    {
        LobbyState {
            n_games,
            selected_idx: 0,
            dirty: true,
            last_input_at: now,
            current_width: initial_size.0,
            current_height: initial_size.1,
            selected: None,
            quit: false,
            flash,
            kick_after,
            warning_within,
        }
    }

    /// The hub's lobby: kicked after 60 s without input, countdown in the last 10 s.
    pub fn hub(n_games: usize, now: u128, initial_size: (u32, u32), flash: Option<String>) -> (s:
        LobbyState)
        ensures
            s.wf(),
            s == (LobbyState {
                n_games,
                selected_idx: 0,
                dirty: true,
                last_input_at: now,
                current_width: initial_size.0,
                current_height: initial_size.1,
                selected: None,
                quit: false,
                flash,
                kick_after: HUB_LOBBY_IDLE,
                warning_within: KICK_WARNING_REMAINING,
            }),
    {
        LobbyState::new(n_games, now, initial_size, flash, HUB_LOBBY_IDLE, KICK_WARNING_REMAINING)
    }

    /// Whether the lobby loop goes on.
    pub fn is_running(&self) -> (r: bool)
        ensures
            r == self.spec_running(),
    {
        !self.quit && self.selected.is_none()
    }

    /// Apply one key press: Esc leaves, Up/`k` and Down/`j` move the
    /// highlight (wrapping), Enter picks the highlighted game, a digit picks
    /// the game with that number.
    pub fn on_key(&mut self, code: KeyCode)
        requires
            old(self).wf(),
        ensures
            final(self).wf(),
            *final(self) == old(self).spec_on_key(code),
    {
        let n: usize = if self.n_games == 0 { 1 } else { self.n_games };
        match code {
            KeyCode::Esc => {
                self.quit = true;
            },
            KeyCode::Up | KeyCode::Char('k') => {
                let idx = self.selected_idx;
                let next: usize = if idx == 0 { n - 1 } else { idx - 1 };
                proof {
                    let ni = n as int;
                    if idx == 0 {
                        assert((idx + ni - 1) % ni == ni - 1) by (nonlinear_arith)
                            requires idx == 0, ni >= 1;
                    } else {
                        assert((idx + ni - 1) % ni == idx - 1) by (nonlinear_arith)
                            requires 1 <= idx < ni;
                    }
                }
                self.selected_idx = next;
                self.dirty = true;
            },
            KeyCode::Down | KeyCode::Char('j') => {
                let next: usize = (self.selected_idx + 1) % n;
                self.selected_idx = next;
                self.dirty = true;
            },
            KeyCode::Enter => {
                if self.selected_idx < self.n_games {
                    self.selected = Some(self.selected_idx);
                } else {
                    self.selected = None;
                }
            },
            KeyCode::Char(c) => {
                if '1' <= c && c <= '9' {
                    let idx: usize = ((c as u8) - ('1' as u8)) as usize;
                    if idx < self.n_games {
                        self.selected = Some(idx);
                    }
                }
            },
            _ => {},
        }
    }

    /// Apply one decoded input event received at `now`: it restarts the idle
    /// clock and clears the flash message; a key is then applied.
    pub fn on_event(&mut self, event: TerminalEvent, now: u128)
        requires
            old(self).wf(),
        ensures
            final(self).wf(),
            *final(self) == old(self).spec_on_event(event, now),
    {
        self.last_input_at = now;
        if self.flash.is_some() {
            self.flash = None;
            self.dirty = true;
        }
        match event {
            TerminalEvent::Key(k) => self.on_key(k.code),
            _ => {},
        }
    }

    /// Apply one chunk of client bytes received at `now`; bytes that decode
    /// to no event change nothing.
    pub fn on_data(&mut self, data: &[u8], now: u128)
        requires
            old(self).wf(),
        ensures
            final(self).wf(),
            *final(self) == old(self).spec_on_data(data@, now),
    {
        match convert_data_to_terminal_event(data) {
            Some(event) => {
                self.on_event(event, now);
            },
            None => {},
        }
    }

    /// The input stream ended: leave the lobby.
    pub fn on_input_closed(&mut self)
        requires
            old(self).wf(),
        ensures
            final(self).wf(),
            *final(self) == (LobbyState { quit: true, ..*old(self) }),
    {
        self.quit = true;
    }

    /// The client reported a new terminal size.
    pub fn on_resize(&mut self, width: u32, height: u32)
        requires
            old(self).wf(),
        ensures
            final(self).wf(),
            *final(self) == (LobbyState {
                current_width: width,
                current_height: height,
                dirty: true,
                ..*old(self)
            }),
    {
        self.current_width = width;
        self.current_height = height;
        self.dirty = true;
    }

    /// Whether the draw tick at `now` can compute its countdown.
    pub fn tick_ok(&self, now: u128) -> (r: bool)
        ensures
            r == self.spec_tick_ok(now),
    {
        !countdown_overflows(self.last_input_at, now, self.kick_after, self.warning_within)
    }

    /// The draw tick at `now`: kick an idle user once the deadline passed,
    /// else redraw when something changed or the countdown is running.
    pub fn on_tick(&mut self, now: u128) -> (action: TickAction)
        requires
            old(self).wf(),
            old(self).spec_tick_ok(now),
        ensures
            final(self).wf(),
            action == old(self).spec_tick_action(now),
            *final(self) == old(self).spec_after_tick(now),
    {
        let warning = kick_warning_secs(self.last_input_at, now, self.kick_after, self.warning_within);
        let elapsed: u128 = if now >= self.last_input_at { now - self.last_input_at } else { 0 };
        if warning.is_none() && elapsed >= self.kick_after {
            self.quit = true;
            return TickAction::Kick;
        }
        if self.dirty || warning.is_some() {
            self.dirty = false;
            return TickAction::Draw(warning);
        }
        TickAction::Wait
    }
}

// ---------------------------------------------------------------------------
// Laws
// ---------------------------------------------------------------------------

/// `k` presses of the same key.
pub open spec fn spec_press_n(s: LobbyState, code: KeyCode, k: nat) -> LobbyState
    decreases k,
{
    if k == 0 {
        s
    } else {
        spec_press_n(s, code, (k - 1) as nat).spec_on_key(code)
    }
}

/// Up then Down, or Down then Up, puts the highlight back where it was.
pub proof fn lemma_up_down_roundtrip(s: LobbyState)
    requires
        s.wf(),
    ensures
        s.spec_on_key(KeyCode::Up).spec_on_key(KeyCode::Down).selected_idx == s.selected_idx,
        s.spec_on_key(KeyCode::Down).spec_on_key(KeyCode::Up).selected_idx == s.selected_idx,
{
    let n = spec_rows(s.n_games);
    let i = s.selected_idx as int;
    assert(((i + n - 1) % n + 1) % n == i) by (nonlinear_arith)
        requires 0 <= i < n;
    assert(((i + 1) % n + n - 1) % n == i) by (nonlinear_arith)
        requires 0 <= i < n;
}

/// Pressing Down `k` times moves the highlight `k` rows on, wrapping.
pub proof fn lemma_down_moves(s: LobbyState, k: nat)
    requires
        s.wf(),
    ensures
        spec_press_n(s, KeyCode::Down, k).wf(),
        spec_press_n(s, KeyCode::Down, k).n_games == s.n_games,
        spec_press_n(s, KeyCode::Down, k).selected == s.selected,
        spec_press_n(s, KeyCode::Down, k).selected_idx == (s.selected_idx + k) % spec_rows(s.n_games),
    decreases k,
{
    let n = spec_rows(s.n_games);
    if k > 0 {
        lemma_down_moves(s, (k - 1) as nat);
        let prev = spec_press_n(s, KeyCode::Down, (k - 1) as nat);
        let p = prev.selected_idx as int;
        let i = s.selected_idx as int;
        let kk = k as int;
        assert((p + 1) % n == (i + kk) % n) by (nonlinear_arith)
            requires p == (i + kk - 1) % n, n >= 1, kk >= 1, i >= 0;
        assert(spec_press_n(s, KeyCode::Down, k) == prev.spec_on_key(KeyCode::Down));
    } else {
        let i = s.selected_idx as int;
        assert(i % n == i) by (nonlinear_arith)
            requires 0 <= i < n;
    }
}

/// After as many Down presses as there are rows, the highlight is back
/// where it was.
pub proof fn lemma_down_full_cycle(s: LobbyState)
    requires
        s.wf(),
    ensures
        spec_press_n(s, KeyCode::Down, spec_rows(s.n_games) as nat).selected_idx == s.selected_idx,
{
    let n = spec_rows(s.n_games);
    lemma_down_moves(s, n as nat);
    let i = s.selected_idx as int;
    assert((i + n) % n == i) by (nonlinear_arith)
        requires 0 <= i < n;
}

/// The draw tick kicks the user exactly when the idle span has reached the
/// threshold.
pub proof fn lemma_kick_iff_deadline(s: LobbyState, now: u128)
    ensures
        (s.spec_tick_action(now) == TickAction::Kick) <==> s.spec_deadline_passed(now),
{
}

/// Any decoded input restarts the idle clock and clears the flash message.
pub proof fn lemma_input_clears_flash(s: LobbyState, event: TerminalEvent, now: u128)
    ensures
        s.spec_on_event(event, now).flash is None,
        s.spec_on_event(event, now).last_input_at == now,
        s.flash is Some ==> s.spec_on_event(event, now).dirty || s.spec_on_event(event, now).quit
            || s.spec_on_event(event, now).selected != s.selected,
{
}

/// Digit `d` (from 1 to 9) picks the `d`-th game when there is one, and
/// nothing otherwise; `0` picks nothing.
pub proof fn lemma_digit_picks_game(s: LobbyState, c: char)
    requires
        s.wf(),
        '0' <= c <= '9',
    ensures
        c == '0' ==> s.spec_on_key(KeyCode::Char(c)) == s,
        c != '0' && (c as u8 - '1' as u8) < s.n_games ==> s.spec_on_key(KeyCode::Char(c)).selected == Some(
            (c as u8 - '1' as u8) as usize,
        ),
        c != '0' && (c as u8 - '1' as u8) >= s.n_games ==> s.spec_on_key(KeyCode::Char(c)) == s,
{
}

/// A lobby that ends with a pick has picked a game on offer.
pub proof fn lemma_pick_is_offered(s: LobbyState)
    requires
        s.wf(),
        s.selected is Some,
    ensures
        s.selected.unwrap() < s.n_games,
{
}

/// Moving the highlight (Up, Down, `k`, `j`) marks the screen for redraw:
/// the next draw tick, unless the idle deadline has passed, draws.
pub proof fn lemma_moving_marks_for_redraw(s: LobbyState, code: KeyCode, now: u128)
    requires
        s.wf(),
        code == KeyCode::Up || code == KeyCode::Down || code == KeyCode::Char('k') || code == KeyCode::Char('j'),
    ensures
        s.spec_on_key(code).dirty,
        !s.spec_on_key(code).spec_deadline_passed(now) ==> s.spec_on_key(code).spec_tick_action(now) is Draw,
{
}

} // verus!
