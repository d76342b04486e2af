//! Per-connection bookkeeping: who authenticated, and the open channels.
use vstd::prelude::*;
use std::collections::HashMap;
use crate::channel::{
    AuthedSession, ChannelError, GameChannel, GameChannelState, HubChannel, HubChannelState,
    SessionStart,
};
use crate::credential::UserCredential;
use vstd::string::StringExecFns;

verus! {

broadcast use vstd::std_specs::hash::group_hash_axioms;

/// The answer to an authentication attempt.
#[derive(Clone, Copy, Debug, PartialEq, Eq, Structural)]
pub enum AuthDecision {
    Accept,
    Reject,
}

// ---------------------------------------------------------------------------
// The hub's connection: accepts anyone, remembers the credential to replay.
// ---------------------------------------------------------------------------

/// One connection to the hub.
pub struct HubClient<S> {
    pub username: String,
    pub credential: Option<UserCredential>,
    /// Open channels, by channel number.
    pub channels: HashMap<u32, HubChannel<S>>,
    /// Most recent PTY terminal name per channel.
    pub pty_terms: HashMap<u32, String>,
}

impl<S> HubClient<S> {
    /// A connection that has not authenticated yet and has no channel.
    pub fn new() -> (c: HubClient<S>)
        ensures
            c.username@ == Seq::<char>::empty(),
            c.credential is None,
            c.channels@ == Map::<u32, HubChannel<S>>::empty(),
            c.pty_terms@ == Map::<u32, String>::empty(),
    {
        HubClient {
            username: String::new(),
            credential: None,
            channels: HashMap::new(),
            pty_terms: HashMap::new(),
        }
    }

    /// Password login: accepted; the password is kept to be forwarded.
    pub fn auth_password(&mut self, user: &str, password: &str) -> (d: AuthDecision)
        ensures
            d == AuthDecision::Accept,
            final(self).username@ == user@,
            final(self).credential matches Some(UserCredential::Password(p)) && p@ == password@,
            final(self).channels@ == old(self).channels@,
            final(self).pty_terms@ == old(self).pty_terms@,
    {
        self.username = String::from_str(user);
        self.credential = Some(UserCredential::Password(String::from_str(password)));
        AuthDecision::Accept
    }

    /// Public-key login (the client proved it holds the key): accepted; the
    /// key's text form is kept to be forwarded as the password.
    pub fn auth_publickey(&mut self, user: &str, key_text: String) -> (d: AuthDecision)
        ensures
            d == AuthDecision::Accept,
            final(self).username@ == user@,
            final(self).credential == Some(UserCredential::PublicKey(key_text)),
            final(self).channels@ == old(self).channels@,
            final(self).pty_terms@ == old(self).pty_terms@,
    {
        self.username = String::from_str(user);
        self.credential = Some(UserCredential::PublicKey(key_text));
        AuthDecision::Accept
    }

    /// Open a session channel for the current user and credential. A channel
    /// number already in use is refused, and its channel replaced by the
    /// fresh one all the same.
    pub fn channel_open_session(&mut self, id: u32) -> (r: Result<bool, ChannelError>)
        ensures
            final(self).channels@.dom() == old(self).channels@.dom().insert(id),
            final(self).channels@[id].state is AwaitingPty,
            final(self).channels@[id].username == old(self).username,
            final(self).channels@[id].credential == old(self).credential,
            forall|k: u32| k != id && #[trigger] old(self).channels@.contains_key(k)
                ==> final(self).channels@[k] == old(self).channels@[k],
            old(self).channels@.contains_key(id) ==> r == Err::<bool, ChannelError>(
                ChannelError::AlreadyOpen(id),
            ),
            !old(self).channels@.contains_key(id) ==> r == Ok::<bool, ChannelError>(true),
            final(self).username == old(self).username,
            final(self).credential == old(self).credential,
            final(self).pty_terms@ == old(self).pty_terms@,
    {
        let credential = match &self.credential {
            Some(c) => Some(c.duplicate()),
            None => None,
        };
        let channel = HubChannel::new(self.username.clone(), credential);
        match self.channels.insert(id, channel) {
            Some(_) => Err(ChannelError::AlreadyOpen(id)),
            None => Ok(true),
        }
    }

    /// Forget a closed channel and its terminal name.
    pub fn channel_close(&mut self, id: u32)
        ensures
            final(self).channels@ == old(self).channels@.remove(id),
            final(self).pty_terms@ == old(self).pty_terms@.remove(id),
            final(self).username == old(self).username,
            final(self).credential == old(self).credential,
    {
        self.channels.remove(&id);
        self.pty_terms.remove(&id);
    }

    /// Where data for channel `id` goes: its running session; refused for
    /// an unknown channel or one without a PTY.
    pub fn data(&self, id: u32) -> (r: Result<&S, ChannelError>)
        ensures
            !self.channels@.contains_key(id) ==> r == Err::<&S, ChannelError>(
                ChannelError::UnknownChannel(id),
            ),
            self.channels@.contains_key(id) ==> match self.channels@[id].state {
                HubChannelState::Ready(s) => r == Ok::<&S, ChannelError>(&s),
                HubChannelState::AwaitingPty => r == Err::<&S, ChannelError>(
                    ChannelError::PtyNotAllocated,
                ),
            },
    {
        match self.channels.get(&id) {
            Some(ch) => ch.data(),
            None => Err(ChannelError::UnknownChannel(id)),
        }
    }

    /// Where a window change for channel `id` goes; refused as for data.
    pub fn window_change_request(&self, id: u32) -> (r: Result<&S, ChannelError>)
        ensures
            !self.channels@.contains_key(id) ==> r == Err::<&S, ChannelError>(
                ChannelError::UnknownChannel(id),
            ),
            self.channels@.contains_key(id) ==> match self.channels@[id].state {
                HubChannelState::Ready(s) => r == Ok::<&S, ChannelError>(&s),
                HubChannelState::AwaitingPty => r == Err::<&S, ChannelError>(
                    ChannelError::PtyNotAllocated,
                ),
            },
    {
        match self.channels.get(&id) {
            Some(ch) => ch.window_change_request(),
            None => Err(ChannelError::UnknownChannel(id)),
        }
    }

    /// A PTY request on channel `id` with terminal name `term`: the name is
    /// recorded first, whatever follows; then the channel's own rules apply
    /// (see `HubChannel::pty_request`), and on success the session fed by
    /// `session` starts with the channel's user and credential.
    pub fn pty_request(&mut self, id: u32, term: &str, session: S) -> (r: Result<
        (String, UserCredential),
        ChannelError,
    >)
        ensures
            final(self).pty_terms@.dom() == old(self).pty_terms@.dom().insert(id),
            final(self).pty_terms@[id]@ == term@,
            forall|k: u32| k != id && #[trigger] old(self).pty_terms@.contains_key(k)
                ==> final(self).pty_terms@[k] == old(self).pty_terms@[k],
            final(self).username == old(self).username,
            final(self).credential == old(self).credential,
            !old(self).channels@.contains_key(id) ==> r == Err::<(String, UserCredential), ChannelError>(
                ChannelError::UnknownChannel(id),
            ) && final(self).channels@ == old(self).channels@,
            old(self).channels@.contains_key(id) ==> {
                let ch = old(self).channels@[id];
                &&& !(ch.state is AwaitingPty) ==> r == Err::<(String, UserCredential), ChannelError>(
                    ChannelError::PtyAlreadyAllocated,
                ) && final(self).channels@ == old(self).channels@
                &&& ch.state is AwaitingPty && ch.credential is None ==> r == Err::<
                    (String, UserCredential),
                    ChannelError,
                >(ChannelError::NoCredential) && final(self).channels@ == old(self).channels@
                &&& ch.state is AwaitingPty && ch.credential is Some ==> r == Ok::<
                    (String, UserCredential),
                    ChannelError,
                >((ch.username, ch.credential.unwrap())) && final(self).channels@ == old(
                    self,
                ).channels@.insert(
                    id,
                    HubChannel {
                        state: HubChannelState::Ready(session),
                        username: ch.username,
                        credential: ch.credential,
                    },
                )
            },
    {
        self.pty_terms.insert(id, String::from_str(term));
        match self.channels.remove(&id) {
            None => Err(ChannelError::UnknownChannel(id)),
            Some(mut ch) => {
                let r = ch.pty_request(session);
                let out = match r {
                    Ok(credential) => Ok((ch.username.clone(), credential)),
                    Err(e) => Err(e),
                };
                self.channels.insert(id, ch);
                out
            },
        }
    }
}

// ---------------------------------------------------------------------------
// A game's connection: the game decides who gets in.
// ---------------------------------------------------------------------------

/// One connection to a game server.
pub struct GameClient<A, H, S> {
    /// `None` until an authentication attempt is accepted.
    pub auth: Option<AuthedSession<A>>,
    /// Open channels, by channel number.
    pub channels: HashMap<u32, GameChannel<A, H, S>>,
}

/// What happens to a window change on a game connection.
pub enum GameWindowChange<'a, S> {
    /// Forward the new size to the running session through `S`.
    Forward(&'a S),
    /// The size was recorded for the session still to start.
    Recorded,
}

/// The text of an exec command, if any.
pub open spec fn spec_command_text(c: Option<String>) -> Option<Seq<char>> {
    match c {
        Some(s) => Some(s@),
        None => None,
    }
}

/// `String::from_utf8_lossy(bytes)`: the text of `bytes` with each invalid
/// UTF-8 sequence replaced by U+FFFD.
pub uninterp spec fn spec_utf8_lossy(bytes: Seq<u8>) -> Seq<char>;

/// `String::from_utf8_lossy(bytes).into_owned()`.
#[verifier::external_body]
pub(crate) fn utf8_lossy(bytes: &[u8]) -> (s: String)
    ensures
        s@ == spec_utf8_lossy(bytes@),
{
    String::from_utf8_lossy(bytes).into_owned()
}

impl<A, H, S> GameClient<A, H, S> {
    /// A connection that has not authenticated yet and has no channel.
    pub fn new() -> (c: GameClient<A, H, S>)
        ensures
            c.auth is None,
            c.channels@ == Map::<u32, GameChannel<A, H, S>>::empty(),
    {
        GameClient { auth: None, channels: HashMap::new() }
    }

    /// Record the game's verdict on an authentication attempt by `user`:
    /// `Some(auth)` accepts and remembers the user with the game's state;
    /// `None` rejects and leaves the connection as it was.
    pub fn record_authentication(&mut self, user: &str, verdict: Option<A>) -> (d: AuthDecision)
        ensures
            verdict is None ==> d == AuthDecision::Reject && final(self).auth == old(self).auth,
            verdict matches Some(a) ==> d == AuthDecision::Accept,
            verdict matches Some(a) ==> (final(self).auth matches Some(s) && s.username@ == user@
                && s.auth == a),
            final(self).channels@ == old(self).channels@,
    {
        match verdict {
            Some(auth) => {
                self.auth = Some(AuthedSession { username: String::from_str(user), auth });
                AuthDecision::Accept
            },
            None => AuthDecision::Reject,
        }
    }

    /// Forget a closed channel.
    pub fn channel_close(&mut self, id: u32)
        ensures
            final(self).channels@ == old(self).channels@.remove(id),
            final(self).auth == old(self).auth,
    {
        self.channels.remove(&id);
    }

    /// Where data for channel `id` goes: its running session; refused for an
    /// unknown channel or one whose session has not started.
    pub fn data(&self, id: u32) -> (r: Result<&S, ChannelError>)
        ensures
            !self.channels@.contains_key(id) ==> r == Err::<&S, ChannelError>(
                ChannelError::UnknownChannel(id),
            ),
            self.channels@.contains_key(id) ==> match self.channels@[id].state {
                GameChannelState::Ready(s) => r == Ok::<&S, ChannelError>(&s),
                _ => r == Err::<&S, ChannelError>(ChannelError::SessionNotStarted),
            },
    {
        match self.channels.get(&id) {
            Some(ch) => ch.data(),
            None => Err(ChannelError::UnknownChannel(id)),
        }
    }

    /// A PTY request on channel `id`; refused for an unknown channel, else
    /// as `GameChannel::pty_request` says.
    pub fn pty_request(
        &mut self,
        id: u32,
        term: String,
        width: u32,
        height: u32,
        handle: H,
    ) -> (r: Result<(), ChannelError>)
        ensures
            final(self).auth == old(self).auth,
            !old(self).channels@.contains_key(id) ==> r == Err::<(), ChannelError>(
                ChannelError::UnknownChannel(id),
            ) && final(self).channels@ == old(self).channels@,
            old(self).channels@.contains_key(id) ==> {
                let ch = old(self).channels@[id];
                &&& ch.state is AwaitingPty ==> r is Ok && final(self).channels@ == old(
                    self,
                ).channels@.insert(
                    id,
                    GameChannel {
                        state: GameChannelState::PtyReady { id, term, width, height, handle },
                        authed: ch.authed,
                    },
                )
                &&& !(ch.state is AwaitingPty) ==> r == Err::<(), ChannelError>(
                    ChannelError::PtyAlreadyAllocated,
                ) && final(self).channels@ == old(self).channels@
            },
    {
        match self.channels.remove(&id) {
            None => Err(ChannelError::UnknownChannel(id)),
            Some(mut ch) => {
                let r = ch.pty_request(id, term, width, height, handle);
                self.channels.insert(id, ch);
                r
            },
        }
    }

    /// A window change on channel `id`: forwarded to a running session,
    /// recorded while the session is still to start, refused before the PTY
    /// or for an unknown channel.
    pub fn window_change_request(&mut self, id: u32, width: u32, height: u32) -> (r: Result<
        GameWindowChange<'_, S>,
        ChannelError,
    >)
        ensures
            final(self).auth == old(self).auth,
            !old(self).channels@.contains_key(id) ==> (r matches Err(ChannelError::UnknownChannel(i))
                && i == id && final(self).channels@ == old(self).channels@),
            old(self).channels@.contains_key(id) ==> {
                let ch = old(self).channels@[id];
                match ch.state {
                    GameChannelState::Ready(s) => r matches Ok(GameWindowChange::Forward(t)) && *t
                        == s && final(self).channels@ == old(self).channels@,
                    GameChannelState::PtyReady { id: cid, term, handle, .. } => r matches Ok(
                        GameWindowChange::Recorded,
                    ) && final(self).channels@ == old(self).channels@.insert(
                        id,
                        GameChannel {
                            state: GameChannelState::PtyReady { id: cid, term, width, height, handle },
                            authed: ch.authed,
                        },
                    ),
                    GameChannelState::AwaitingPty => r matches Err(ChannelError::PtyNotAllocated)
                        && final(self).channels@ == old(self).channels@,
                }
            },
    {
        let ready = match self.channels.get(&id) {
            None => return Err(ChannelError::UnknownChannel(id)),
            Some(ch) => match &ch.state {
                GameChannelState::Ready(_) => true,
                GameChannelState::AwaitingPty => return Err(ChannelError::PtyNotAllocated),
                GameChannelState::PtyReady { .. } => false,
            },
        };
        if ready {
            match self.channels.get(&id) {
                Some(ch) => match &ch.state {
                    GameChannelState::Ready(s) => Ok(GameWindowChange::Forward(s)),
                    _ => Err(ChannelError::PtyNotAllocated),
                },
                None => Err(ChannelError::UnknownChannel(id)),
            }
        } else {
            match self.channels.remove(&id) {
                Some(mut ch) => {
                    let _ = ch.window_change_request(width, height);
                    self.channels.insert(id, ch);
                    Ok(GameWindowChange::Recorded)
                },
                None => Err(ChannelError::UnknownChannel(id)),
            }
        }
    }
}

impl<A: Clone, H, S> GameClient<A, H, S> {
    /// Open a session channel for the authenticated user (each channel gets
    /// its own copy of the game's state). Refused before authentication; a
    /// channel number already in use is refused, and its channel replaced by
    /// the fresh one all the same.
    pub fn channel_open_session(&mut self, id: u32) -> (r: Result<bool, ChannelError>)
        ensures
            final(self).auth == old(self).auth,
            old(self).auth is None ==> r == Err::<bool, ChannelError>(ChannelError::NotAuthenticated)
                && final(self).channels@ == old(self).channels@,
            old(self).auth matches Some(a) ==> {
                &&& final(self).channels@.dom() == old(self).channels@.dom().insert(id)
                &&& final(self).channels@[id].state is AwaitingPty
                &&& final(self).channels@[id].authed.username == a.username
                &&& cloned(a.auth, final(self).channels@[id].authed.auth)
                &&& forall|k: u32| k != id && #[trigger] old(self).channels@.contains_key(k)
                    ==> final(self).channels@[k] == old(self).channels@[k]
                &&& old(self).channels@.contains_key(id) ==> r == Err::<bool, ChannelError>(
                    ChannelError::AlreadyOpen(id),
                )
                &&& !old(self).channels@.contains_key(id) ==> r == Ok::<bool, ChannelError>(true)
            },
    {
        let authed = match &self.auth {
            Some(a) => AuthedSession { username: a.username.clone(), auth: a.auth.clone() },
            None => return Err(ChannelError::NotAuthenticated),
        };
        match self.channels.insert(id, GameChannel::new(authed)) {
            Some(_) => Err(ChannelError::AlreadyOpen(id)),
            None => Ok(true),
        }
    }

    /// What a shell or exec request on channel `id` (with the command `cmd`,
    /// by its text, for an exec) does, taking the connection from `self` to
    /// `after`: refused for an unknown channel; on a channel with a PTY the
    /// session starts, carrying the channel's user, a copy of its game state,
    /// its terminal, channel id, handle and size, and the channel is marked
    /// running with `session` so that later data reaches it; refused before
    /// the PTY, leaving the channels as they were.
    pub open spec fn spec_started(
        self,
        after: Self,
        id: u32,
        cmd: Option<Seq<char>>,
        session: S,
        r: Result<SessionStart<A, H>, ChannelError>,
    ) -> bool {
        &&& after.auth == self.auth
        &&& !self.channels@.contains_key(id) ==> (r matches Err(ChannelError::UnknownChannel(i)) && i
            == id && after.channels@ == self.channels@)
        &&& self.channels@.contains_key(id) ==> {
            let ch = self.channels@[id];
            match ch.state {
                GameChannelState::PtyReady { id: cid, term, width, height, handle } => {
                    &&& r matches Ok(start) && start.username == ch.authed.username && cloned(
                        ch.authed.auth,
                        start.auth,
                    ) && start.term == term && start.channel_id == cid && start.handle == handle
                        && start.initial_size == (width, height) && spec_command_text(
                        start.exec_command,
                    ) == cmd
                    &&& after.channels@ == self.channels@.insert(
                        id,
                        GameChannel { state: GameChannelState::Ready(session), authed: ch.authed },
                    )
                },
                _ => r matches Err(ChannelError::ShellBeforePty) && after.channels@
                    == self.channels@,
            }
        }
    }

    /// A shell (`exec_command == None`) or exec request on channel `id`;
    /// refused for an unknown channel, else as `GameChannel::start_session`
    /// says.
    pub fn start_session(&mut self, id: u32, exec_command: Option<String>, session: S) -> (r: Result<
        SessionStart<A, H>,
        ChannelError,
    >)
        ensures
            old(self).spec_started(*final(self), id, spec_command_text(exec_command), session, r),
            r matches Ok(start) ==> start.exec_command == exec_command,
    {
        match self.channels.remove(&id) {
            None => {
                assert(self.channels@ =~= old(self).channels@);
                Err(ChannelError::UnknownChannel(id))
            },
            Some(mut ch) => {
                let ghost before = ch;
                let r = ch.start_session(exec_command, session);
                self.channels.insert(id, ch);
                proof {
                    if before.state is PtyReady {
                        assert(self.channels@ =~= old(self).channels@.insert(
                            id,
                            GameChannel::<A, H, S> {
                                state: GameChannelState::Ready(session),
                                authed: before.authed,
                            },
                        ));
                    } else {
                        assert(self.channels@ =~= old(self).channels@);
                    }
                }
                r
            },
        }
    }

    /// A shell request on channel `id`.
    pub fn shell_request(&mut self, id: u32, session: S) -> (r: Result<SessionStart<A, H>, ChannelError>)
        ensures
            old(self).spec_started(*final(self), id, None, session, r),
            r matches Ok(start) ==> start.exec_command is None,
    {
        self.start_session(id, None, session)
    }

    /// An exec request on channel `id` with the command bytes `data`, taken
    /// as text (invalid UTF-8 replaced).
    pub fn exec_request(&mut self, id: u32, data: &[u8], session: S) -> (r: Result<
        SessionStart<A, H>,
        ChannelError,
    >)
        ensures
            old(self).spec_started(*final(self), id, Some(spec_utf8_lossy(data@)), session, r),
    {
        let command = utf8_lossy(data);
        self.start_session(id, Some(command), session)
    }
}

} // verus!
