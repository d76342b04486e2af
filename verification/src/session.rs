//! The course of one session: lobby, then bridge to the picked game; on
//! the hub, back to the lobby when the game refused the login.
use vstd::prelude::*;
use crate::text::concat3;

verus! {

/// How a bridge to an upstream game ended.
#[derive(Clone, Copy, Debug, PartialEq, Eq, Structural)]
pub enum BridgeOutcome {
    /// The game or the user closed the session.
    Completed,
    /// The game refused the forwarded login.
    AuthRejected,
    /// Connecting or relaying failed.
    Failed,
}

/// Which server a session runs on.
#[derive(Clone, Copy, Debug, PartialEq, Eq, Structural)]
pub enum ServerKind {
    /// The hub: a game that refuses the forwarded login sends the user back
    /// to the lobby.
    Hub,
    /// The single-game server: the session ends when the bridge ends,
    /// however it ended.
    SingleGame,
}

/// What the session does next.
#[derive(Debug, PartialEq, Eq)]
pub enum SessionStep {
    /// Show the lobby, with a one-off message in place of the greeting.
    Lobby(Option<String>),
    /// Bridge the user to the game with this index.
    Bridge(usize),
    /// Close the channel: the session is over.
    Close,
}

/// The message shown in the lobby after `game_key` refused the login.
pub open spec fn spec_auth_rejected_flash(game_key: Seq<char>) -> Seq<char> {
    "could not connect to "@ + game_key + ": authentication rejected"@
}

/// The message shown in the lobby after `game_key` refused the login.
pub fn auth_rejected_flash(game_key: &str) -> (s: String)
    ensures
        s@ == spec_auth_rejected_flash(game_key@),
{
    concat3("could not connect to ", game_key, ": authentication rejected")
}

/// The first step of a session: the lobby, without a message.
pub fn session_start() -> (step: SessionStep)
    ensures
        step == SessionStep::Lobby(None),
{
    SessionStep::Lobby(None)
}

/// After the lobby: bridge to the picked game, or close when the user left.
pub fn after_lobby(selected: Option<usize>) -> (step: SessionStep)
    ensures
        step == match selected {
            Some(i) => SessionStep::Bridge(i),
            None => SessionStep::Close,
        },
{
    match selected {
        Some(i) => SessionStep::Bridge(i),
        None => SessionStep::Close,
    }
}

/// After a bridge to the game keyed `game_key` ended: on the hub, a refused
/// login sends the user back to the lobby with a message naming the game;
/// any other end, and every end on the single-game server, closes the
/// session.
pub fn after_bridge(kind: ServerKind, outcome: BridgeOutcome, game_key: &str) -> (step: SessionStep)
    ensures
        kind == ServerKind::Hub && outcome == BridgeOutcome::AuthRejected ==> (step matches SessionStep::Lobby(
            Some(m),
        ) && m@ == spec_auth_rejected_flash(game_key@)),
        !(kind == ServerKind::Hub && outcome == BridgeOutcome::AuthRejected) ==> step
            == SessionStep::Close,
{
    match (kind, outcome) {
        (ServerKind::Hub, BridgeOutcome::AuthRejected) => SessionStep::Lobby(
            Some(auth_rejected_flash(game_key)),
        ),
        _ => SessionStep::Close,
    }
}

} // verus!
