//! Relaying bytes between the user's channel and the upstream game's channel.
use vstd::prelude::*;
use crate::session::BridgeOutcome;

verus! {

/// A message from the upstream game's channel.
#[derive(Debug, PartialEq, Eq)]
pub enum UpstreamMsg {
    Data(Vec<u8>),
    ExtendedData(Vec<u8>),
    Eof,
    Close,
    ExitStatus(u32),
    /// Any other channel message.
    Other,
}

/// One thing the relay loop observed.
#[derive(Debug, PartialEq, Eq)]
pub enum BridgeEvent {
    /// Bytes from the user, or `None` when the user's input ended.
    FromClient(Option<Vec<u8>>),
    /// A window change from the user, or `None` when that stream ended.
    ClientResize(Option<(u32, u32)>),
    /// A message from the game, or `None` when the game's channel ended.
    FromUpstream(Option<UpstreamMsg>),
}

/// What the relay loop does next.
#[derive(Debug, PartialEq, Eq)]
pub enum BridgeAction {
    /// Write these bytes to the game.
    SendUpstream(Vec<u8>),
    /// Tell the game about the new window size.
    ResizeUpstream(u32, u32),
    /// Write these bytes to the user.
    SendToClient(Vec<u8>),
    /// Keep relaying.
    Continue,
    /// Stop relaying and close the game's channel.
    Stop,
}

/// The relay's decision for one observation.
pub open spec fn spec_bridge_step(event: BridgeEvent) -> BridgeAction {
    match event {
        BridgeEvent::FromClient(Some(bytes)) => BridgeAction::SendUpstream(bytes),
        BridgeEvent::ClientResize(Some((w, h))) => BridgeAction::ResizeUpstream(w, h),
        BridgeEvent::FromUpstream(Some(UpstreamMsg::Data(bytes))) => BridgeAction::SendToClient(bytes),
        BridgeEvent::FromUpstream(Some(UpstreamMsg::ExtendedData(bytes))) => BridgeAction::SendToClient(
            bytes,
        ),
        BridgeEvent::FromUpstream(Some(UpstreamMsg::Other)) => BridgeAction::Continue,
        _ => BridgeAction::Stop,
    }
}

/// The relay's decision for one observation: user bytes and window changes
/// go to the game, game output (plain and extended) goes to the user; the
/// end of any stream, or the game's EOF, close or exit status, stops it.
pub fn bridge_step(event: BridgeEvent) -> (action: BridgeAction)
    ensures
        action == spec_bridge_step(event),
{
    match event {
        BridgeEvent::FromClient(Some(bytes)) => BridgeAction::SendUpstream(bytes),
        BridgeEvent::FromClient(None) => BridgeAction::Stop,
        BridgeEvent::ClientResize(Some((w, h))) => BridgeAction::ResizeUpstream(w, h),
        BridgeEvent::ClientResize(None) => BridgeAction::Stop,
        BridgeEvent::FromUpstream(Some(msg)) => match msg {
            UpstreamMsg::Data(bytes) => BridgeAction::SendToClient(bytes),
            UpstreamMsg::ExtendedData(bytes) => BridgeAction::SendToClient(bytes),
            UpstreamMsg::Eof | UpstreamMsg::Close | UpstreamMsg::ExitStatus(_) => BridgeAction::Stop,
            UpstreamMsg::Other => BridgeAction::Continue,
        },
        BridgeEvent::FromUpstream(None) => BridgeAction::Stop,
    }
}

/// After a write to either side: keep relaying if it went through, else stop.
pub fn after_write(succeeded: bool) -> (action: BridgeAction)
    ensures
        action == if succeeded { BridgeAction::Continue } else { BridgeAction::Stop },
{
    if succeeded {
        BridgeAction::Continue
    } else {
        BridgeAction::Stop
    }
}

/// After the upstream login: `None` to go on relaying, or the outcome
/// that ends the bridge when the game refused the forwarded credential.
pub fn after_upstream_login(success: bool) -> (outcome: Option<BridgeOutcome>)
    ensures
        outcome == if success { None } else { Some(BridgeOutcome::AuthRejected) },
{
    if success {
        None
    } else {
        Some(BridgeOutcome::AuthRejected)
    }
}

} // verus!
