//! Per-channel state machines: a channel must get a PTY before its session
//! starts, and only a started session takes data and window changes.
//!
//! The I/O ends of a started session (`S`) and the connection handle (`H`)
//! are whatever the runtime uses; these machines only decide.
use vstd::prelude::*;
use crate::credential::UserCredential;
use crate::text::{concat3, decimal, spec_decimal};
use vstd::string::StringExecFns;

verus! {

/// Why a channel request was refused.
#[derive(Clone, Copy, Debug, PartialEq, Eq, Structural)]
pub enum ChannelError {
    /// Data or a window change arrived before the PTY.
    PtyNotAllocated,
    /// A second PTY request.
    PtyAlreadyAllocated,
    /// A PTY request on a connection that authenticated with nothing to forward.
    NoCredential,
    /// Data arrived before a shell or exec request started the session.
    SessionNotStarted,
    /// A shell or exec request arrived before the PTY.
    ShellBeforePty,
    /// A request named a channel that is not open.
    UnknownChannel(u32),
    /// A channel was opened twice.
    AlreadyOpen(u32),
    /// A channel was opened before authentication.
    NotAuthenticated,
}

/// The text of each refusal.
pub open spec fn spec_error_message(e: ChannelError) -> Seq<char> {
    match e {
        ChannelError::PtyNotAllocated => "pty hasn't been allocated yet"@,
        ChannelError::PtyAlreadyAllocated => "pty has been already allocated"@,
        ChannelError::NoCredential => "session has no captured credential"@,
        ChannelError::SessionNotStarted => "session not started yet"@,
        ChannelError::ShellBeforePty => "shell/exec before pty allocation"@,
        ChannelError::UnknownChannel(id) => "unknown channel: "@ + spec_decimal(id as nat),
        ChannelError::AlreadyOpen(id) => "channel `"@ + spec_decimal(id as nat)
            + "` has been already opened"@,
        ChannelError::NotAuthenticated => "channel opened before authentication"@,
    }
}

impl ChannelError {
    /// The text of this refusal.
    pub fn message(&self) -> (s: String)
        ensures
            s@ == spec_error_message(*self),
    {
        match self {
            ChannelError::PtyNotAllocated => String::from_str("pty hasn't been allocated yet"),
            ChannelError::PtyAlreadyAllocated => String::from_str("pty has been already allocated"),
            ChannelError::NoCredential => String::from_str("session has no captured credential"),
            ChannelError::SessionNotStarted => String::from_str("session not started yet"),
            ChannelError::ShellBeforePty => String::from_str("shell/exec before pty allocation"),
            ChannelError::UnknownChannel(id) => {
                let d = decimal(*id as u64);
                let mut s = String::from_str("unknown channel: ");
                s.append(d.as_str());
                s
            },
            ChannelError::AlreadyOpen(id) => {
                let d = decimal(*id as u64);
                concat3("channel `", d.as_str(), "` has been already opened")
            },
            ChannelError::NotAuthenticated => String::from_str("channel opened before authentication"),
        }
    }
}

// ---------------------------------------------------------------------------
// The hub's channel: a PTY request starts the session at once.
// ---------------------------------------------------------------------------

/// Phase of a hub channel.
pub enum HubChannelState<S> {
    AwaitingPty,
    /// The session runs; `S` feeds it.
    Ready(S),
}

/// A hub channel: who opened it, with what credential, and its phase.
pub struct HubChannel<S> {
    pub state: HubChannelState<S>,
    pub username: String,
    pub credential: Option<UserCredential>,
}

impl<S> HubChannel<S> {
    /// A channel waiting for its PTY.
    pub fn new(username: String, credential: Option<UserCredential>) -> (c: HubChannel<S>)
        ensures
            c.state is AwaitingPty,
            c.username == username,
            c.credential == credential,
    {
        HubChannel { state: HubChannelState::AwaitingPty, username, credential }
    }

    /// Where client data goes: the running session, else refused.
    pub fn data(&self) -> (r: Result<&S, ChannelError>)
        ensures
            match self.state {
                HubChannelState::Ready(s) => r == Ok::<&S, ChannelError>(&s),
                HubChannelState::AwaitingPty => r == Err::<&S, ChannelError>(
                    ChannelError::PtyNotAllocated,
                ),
            },
    {
        match &self.state {
            HubChannelState::Ready(s) => Ok(s),
            HubChannelState::AwaitingPty => Err(ChannelError::PtyNotAllocated),
        }
    }

    /// Where a window change goes: the running session, else refused.
    pub fn window_change_request(&self) -> (r: Result<&S, ChannelError>)
        ensures
            match self.state {
                HubChannelState::Ready(s) => r == Ok::<&S, ChannelError>(&s),
                HubChannelState::AwaitingPty => r == Err::<&S, ChannelError>(
                    ChannelError::PtyNotAllocated,
                ),
            },
    {
        self.data()
    }

    /// A PTY request: refused when the PTY exists already or there is no
    /// credential to forward; else the session fed by `session` starts and
    /// the credential is handed over for it.
    pub fn pty_request(&mut self, session: S) -> (r: Result<UserCredential, ChannelError>)
        ensures
            !(old(self).state is AwaitingPty) ==> r == Err::<UserCredential, ChannelError>(
                ChannelError::PtyAlreadyAllocated,
            ) && *final(self) == *old(self),
            old(self).state is AwaitingPty && old(self).credential is None ==> r == Err::<
                UserCredential,
                ChannelError,
            >(ChannelError::NoCredential) && *final(self) == *old(self),
            old(self).state is AwaitingPty && old(self).credential is Some ==> r == Ok::<
                UserCredential,
                ChannelError,
            >(old(self).credential.unwrap()) && final(self).state == HubChannelState::Ready(session)
                && final(self).username == old(self).username && final(self).credential == old(
                self,
            ).credential,
    {
        if !matches!(self.state, HubChannelState::AwaitingPty) {
            return Err(ChannelError::PtyAlreadyAllocated);
        }
        let credential = match &self.credential {
            Some(c) => c.duplicate(),
            None => return Err(ChannelError::NoCredential),
        };
        self.state = HubChannelState::Ready(session);
        Ok(credential)
    }
}

// ---------------------------------------------------------------------------
// A game channel: PTY first, then a shell or exec request starts the session.
// ---------------------------------------------------------------------------

/// Who the connection authenticated as, and what the game made of it.
pub struct AuthedSession<A> {
    pub username: String,
    pub auth: A,
}

/// Phase of a game channel.
pub enum GameChannelState<H, S> {
    AwaitingPty,
    /// PTY allocated; waiting for a shell or exec request to start the session.
    PtyReady { id: u32, term: String, width: u32, height: u32, handle: H },
    /// The session runs; `S` feeds it.
    Ready(S),
}

/// What a started game session is handed.
pub struct SessionStart<A, H> {
    pub username: String,
    pub auth: A,
    pub term: String,
    pub channel_id: u32,
    pub handle: H,
    pub initial_size: (u32, u32),
    pub exec_command: Option<String>,
}

/// A game channel: the authenticated user and its phase.
pub struct GameChannel<A, H, S> {
    pub state: GameChannelState<H, S>,
    pub authed: AuthedSession<A>,
}

/// What happens to a window change on a game channel.
pub enum WindowChange<'a, S> {
    /// Forward the new size to the running session through `S`.
    Forward(&'a S),
    /// The size was recorded for the session still to start.
    Recorded,
}

/// The phase of a game channel, without its contents.
#[derive(Clone, Copy, Debug, PartialEq, Eq, Structural)]
pub enum Phase {
    AwaitingPty,
    PtyReady,
    Ready,
}

/// How far along a phase is.
pub open spec fn spec_rank(p: Phase) -> int {
    match p {
        Phase::AwaitingPty => 0,
        Phase::PtyReady => 1,
        Phase::Ready => 2,
    }
}

/// A PTY request is taken only before any PTY.
pub open spec fn spec_pty_accepted(p: Phase) -> bool {
    p == Phase::AwaitingPty
}

/// A shell or exec request is taken only between PTY and session.
pub open spec fn spec_start_accepted(p: Phase) -> bool {
    p == Phase::PtyReady
}

/// Data is taken only by a running session.
pub open spec fn spec_data_accepted(p: Phase) -> bool {
    p == Phase::Ready
}

/// The phase after a PTY request.
pub open spec fn spec_phase_after_pty(p: Phase) -> Phase {
    if spec_pty_accepted(p) { Phase::PtyReady } else { p }
}

/// The phase after a shell or exec request.
pub open spec fn spec_phase_after_start(p: Phase) -> Phase {
    if spec_start_accepted(p) { Phase::Ready } else { p }
}

impl<A, H, S> GameChannel<A, H, S> {
    /// The channel's phase.
    pub open spec fn spec_phase(&self) -> Phase {
        match self.state {
            GameChannelState::AwaitingPty => Phase::AwaitingPty,
            GameChannelState::PtyReady { .. } => Phase::PtyReady,
            GameChannelState::Ready(_) => Phase::Ready,
        }
    }

    /// A channel waiting for its PTY.
    pub fn new(authed: AuthedSession<A>) -> (c: GameChannel<A, H, S>)
        ensures
            c.state is AwaitingPty,
            c.authed == authed,
    {
        GameChannel { state: GameChannelState::AwaitingPty, authed }
    }

    /// Where client data goes: the running session, else refused.
    pub fn data(&self) -> (r: Result<&S, ChannelError>)
        ensures
            match self.state {
                GameChannelState::Ready(s) => r == Ok::<&S, ChannelError>(&s),
                _ => r == Err::<&S, ChannelError>(ChannelError::SessionNotStarted),
            },
            r is Ok == spec_data_accepted(self.spec_phase()),
    {
        match &self.state {
            GameChannelState::Ready(s) => Ok(s),
            _ => Err(ChannelError::SessionNotStarted),
        }
    }

    /// A PTY request: recorded when none was made yet, else refused.
    pub fn pty_request(&mut self, id: u32, term: String, width: u32, height: u32, handle: H) -> (r:
        Result<(), ChannelError>)
        ensures
            old(self).state is AwaitingPty ==> r is Ok && final(self).state == (GameChannelState::<
                H,
                S,
            >::PtyReady { id, term, width, height, handle }) && final(self).authed == old(
                self,
            ).authed,
            !(old(self).state is AwaitingPty) ==> r == Err::<(), ChannelError>(
                ChannelError::PtyAlreadyAllocated,
            ) && *final(self) == *old(self),
            r is Ok == spec_pty_accepted(old(self).spec_phase()),
            final(self).spec_phase() == spec_phase_after_pty(old(self).spec_phase()),
    {
        if !matches!(self.state, GameChannelState::AwaitingPty) {
            return Err(ChannelError::PtyAlreadyAllocated);
        }
        self.state = GameChannelState::PtyReady { id, term, width, height, handle };
        Ok(())
    }

    /// A window change: forwarded to a running session, recorded as the
    /// initial size while the session is still to start, refused before
    /// the PTY.
    pub fn window_change_request(&mut self, width: u32, height: u32) -> (r: Result<
        WindowChange<'_, S>,
        ChannelError,
    >)
        ensures
            match old(self).state {
                GameChannelState::Ready(s) => r matches Ok(WindowChange::Forward(t)) && *t == s
                    && *final(self) == *old(self),
                GameChannelState::PtyReady { id, term, handle, .. } => r matches Ok(
                    WindowChange::Recorded,
                ) && final(self).state == (GameChannelState::<H, S>::PtyReady {
                    id,
                    term,
                    width,
                    height,
                    handle,
                }) && final(self).authed == old(self).authed,
                GameChannelState::AwaitingPty => r matches Err(ChannelError::PtyNotAllocated)
                    && *final(self) == *old(self),
            },
    {
        match &mut self.state {
            GameChannelState::Ready(s) => Ok(WindowChange::Forward(s)),
            GameChannelState::PtyReady { width: w, height: h, .. } => {
                *w = width;
                *h = height;
                Ok(WindowChange::Recorded)
            },
            GameChannelState::AwaitingPty => Err(ChannelError::PtyNotAllocated),
        }
    }
}

impl<A: Clone, H, S> GameChannel<A, H, S> {
    /// A shell (`exec_command == None`) or exec request: starts the session
    /// fed by `session` when the PTY is allocated and the session not yet
    /// started, handing over everything recorded for it; else refused,
    /// with the channel unchanged.
    pub fn start_session(&mut self, exec_command: Option<String>, session: S) -> (r: Result<
        SessionStart<A, H>,
        ChannelError,
    >)
        ensures
            match old(self).state {
                GameChannelState::PtyReady { id, term, width, height, handle } => {
                    &&& r matches Ok(start) && start.username == old(self).authed.username
                        && cloned(old(self).authed.auth, start.auth) && start.term == term
                        && start.channel_id == id && start.handle == handle && start.initial_size == (
                    width,
                    height,
                ) && start.exec_command == exec_command
                    &&& final(self).state == GameChannelState::<H, S>::Ready(session)
                    &&& final(self).authed == old(self).authed
                },
                _ => r matches Err(ChannelError::ShellBeforePty) && *final(self) == *old(self),
            },
            r is Ok == spec_start_accepted(old(self).spec_phase()),
            final(self).spec_phase() == spec_phase_after_start(old(self).spec_phase()),
    {
        let mut state = GameChannelState::AwaitingPty;
        std::mem::swap(&mut state, &mut self.state);
        match state {
            GameChannelState::PtyReady { id, term, width, height, handle } => {
                let start = SessionStart {
                    username: self.authed.username.clone(),
                    auth: self.authed.auth.clone(),
                    term,
                    channel_id: id,
                    handle,
                    initial_size: (width, height),
                    exec_command,
                };
                self.state = GameChannelState::Ready(session);
                Ok(start)
            },
            other => {
                self.state = other;
                Err(ChannelError::ShellBeforePty)
            },
        }
    }
}

// ---------------------------------------------------------------------------
// Laws
// ---------------------------------------------------------------------------

/// A game channel's phase only moves forward: no request takes it back.
pub proof fn lemma_phase_only_advances(p: Phase)
    ensures
        spec_rank(spec_phase_after_pty(p)) >= spec_rank(p),
        spec_rank(spec_phase_after_start(p)) >= spec_rank(p),
{
}

/// The only way to a running session is a PTY request followed by a shell
/// or exec request; after that no further PTY, shell or exec request is
/// taken, and only then is data taken.
pub proof fn lemma_session_starts_once(p: Phase)
    ensures
        spec_data_accepted(spec_phase_after_start(spec_phase_after_pty(Phase::AwaitingPty))),
        !spec_start_accepted(Phase::AwaitingPty),
        !spec_data_accepted(Phase::AwaitingPty) && !spec_data_accepted(Phase::PtyReady),
        spec_data_accepted(p) ==> !spec_pty_accepted(p) && !spec_start_accepted(p),
{
}

} // verus!
