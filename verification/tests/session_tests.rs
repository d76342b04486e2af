use sshhub::session::{
    after_bridge, after_lobby, auth_rejected_flash, session_start, BridgeOutcome, ServerKind, SessionStep,
};

#[test]
fn session_starts_in_the_lobby() {
    assert_eq!(session_start(), SessionStep::Lobby(None));
}

#[test]
fn lobby_pick_bridges_and_leaving_closes() {
    assert_eq!(after_lobby(Some(2)), SessionStep::Bridge(2));
    assert_eq!(after_lobby(None), SessionStep::Close);
}

#[test]
fn rejected_login_returns_to_the_lobby_with_a_message() {
    assert_eq!(
        after_bridge(ServerKind::Hub, BridgeOutcome::AuthRejected, "stonks"),
        SessionStep::Lobby(Some(String::from("could not connect to stonks: authentication rejected")))
    );
}

#[test]
fn other_bridge_ends_close_the_session() {
    assert_eq!(after_bridge(ServerKind::Hub, BridgeOutcome::Completed, "stonks"), SessionStep::Close);
    assert_eq!(after_bridge(ServerKind::Hub, BridgeOutcome::Failed, "stonks"), SessionStep::Close);
}

#[test]
fn single_game_server_closes_after_any_bridge() {
    for outcome in [BridgeOutcome::AuthRejected, BridgeOutcome::Completed, BridgeOutcome::Failed] {
        assert_eq!(after_bridge(ServerKind::SingleGame, outcome, "stonks"), SessionStep::Close);
    }
}

#[test]
fn flash_text_names_the_game() {
    assert_eq!(auth_rejected_flash("rebels"), "could not connect to rebels: authentication rejected");
    assert_eq!(auth_rejected_flash(""), "could not connect to : authentication rejected");
}
