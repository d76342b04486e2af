use sshhub::bridge::{after_upstream_login, after_write, bridge_step, BridgeAction, BridgeEvent, UpstreamMsg};
use sshhub::session::BridgeOutcome;

#[test]
fn client_bytes_go_upstream() {
    assert_eq!(
        bridge_step(BridgeEvent::FromClient(Some(vec![1, 2]))),
        BridgeAction::SendUpstream(vec![1, 2])
    );
}

#[test]
fn client_resize_goes_upstream() {
    assert_eq!(
        bridge_step(BridgeEvent::ClientResize(Some((100, 30)))),
        BridgeAction::ResizeUpstream(100, 30)
    );
}

#[test]
fn game_output_goes_to_the_client() {
    assert_eq!(
        bridge_step(BridgeEvent::FromUpstream(Some(UpstreamMsg::Data(vec![9])))),
        BridgeAction::SendToClient(vec![9])
    );
    assert_eq!(
        bridge_step(BridgeEvent::FromUpstream(Some(UpstreamMsg::ExtendedData(vec![7])))),
        BridgeAction::SendToClient(vec![7])
    );
}

#[test]
fn end_of_any_stream_stops() {
    assert_eq!(bridge_step(BridgeEvent::FromClient(None)), BridgeAction::Stop);
    assert_eq!(bridge_step(BridgeEvent::ClientResize(None)), BridgeAction::Stop);
    assert_eq!(bridge_step(BridgeEvent::FromUpstream(None)), BridgeAction::Stop);
    assert_eq!(bridge_step(BridgeEvent::FromUpstream(Some(UpstreamMsg::Eof))), BridgeAction::Stop);
    assert_eq!(bridge_step(BridgeEvent::FromUpstream(Some(UpstreamMsg::Close))), BridgeAction::Stop);
    assert_eq!(
        bridge_step(BridgeEvent::FromUpstream(Some(UpstreamMsg::ExitStatus(0)))),
        BridgeAction::Stop
    );
}

#[test]
fn other_game_messages_are_ignored() {
    assert_eq!(bridge_step(BridgeEvent::FromUpstream(Some(UpstreamMsg::Other))), BridgeAction::Continue);
}

#[test]
fn failed_write_stops() {
    assert_eq!(after_write(true), BridgeAction::Continue);
    assert_eq!(after_write(false), BridgeAction::Stop);
}

#[test]
fn refused_upstream_login_ends_the_bridge() {
    assert_eq!(after_upstream_login(true), None);
    assert_eq!(after_upstream_login(false), Some(BridgeOutcome::AuthRejected));
}
