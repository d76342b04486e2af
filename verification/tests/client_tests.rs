use sshhub::channel::{ChannelError, GameChannelState, HubChannelState};
use sshhub::client::{AuthDecision, GameClient, GameWindowChange, HubClient};
use sshhub::credential::UserCredential;

#[test]
fn hub_accepts_passwords_and_keeps_them() {
    let mut c: HubClient<u8> = HubClient::new();
    assert_eq!(c.auth_password("ann", "hunter2"), AuthDecision::Accept);
    assert_eq!(c.username, "ann");
    assert_eq!(c.credential.as_ref().map(|k| k.as_str()), Some("hunter2"));
}

#[test]
fn hub_accepts_public_keys_as_text() {
    let mut c: HubClient<u8> = HubClient::new();
    assert_eq!(c.auth_publickey("bo", String::from("ssh-ed25519 AAAA")), AuthDecision::Accept);
    assert!(matches!(c.credential, Some(UserCredential::PublicKey(ref k)) if k == "ssh-ed25519 AAAA"));
}

#[test]
fn hub_channels_open_once() {
    let mut c: HubClient<u8> = HubClient::new();
    c.auth_password("ann", "pw");
    assert_eq!(c.channel_open_session(1), Ok(true));
    assert_eq!(c.channel_open_session(1), Err(ChannelError::AlreadyOpen(1)));
    assert_eq!(c.channels.len(), 1);
}

#[test]
fn hub_unknown_channels_are_refused() {
    let c: HubClient<u8> = HubClient::new();
    assert_eq!(c.data(4).err(), Some(ChannelError::UnknownChannel(4)));
    assert_eq!(c.window_change_request(4).err(), Some(ChannelError::UnknownChannel(4)));
}

#[test]
fn hub_pty_records_the_terminal_even_for_unknown_channels() {
    let mut c: HubClient<u8> = HubClient::new();
    assert_eq!(c.pty_request(9, "xterm", 1).err(), Some(ChannelError::UnknownChannel(9)));
    assert_eq!(c.pty_terms.get(&9).map(|s| s.as_str()), Some("xterm"));
}

#[test]
fn hub_session_flow() {
    let mut c: HubClient<u8> = HubClient::new();
    c.auth_password("ann", "pw");
    c.channel_open_session(2).unwrap();
    assert_eq!(c.data(2).err(), Some(ChannelError::PtyNotAllocated));
    let (user, cred) = c.pty_request(2, "xterm-256color", 7).ok().unwrap();
    assert_eq!(user, "ann");
    assert_eq!(cred.as_str(), "pw");
    assert_eq!(c.data(2).ok(), Some(&7));
    assert_eq!(c.window_change_request(2).ok(), Some(&7));
    assert!(matches!(c.channels.get(&2).unwrap().state, HubChannelState::Ready(7)));
    assert_eq!(c.pty_request(2, "vt100", 8).err(), Some(ChannelError::PtyAlreadyAllocated));
    c.channel_close(2);
    assert_eq!(c.data(2).err(), Some(ChannelError::UnknownChannel(2)));
    assert!(c.pty_terms.get(&2).is_none());
}

#[test]
fn hub_channel_opened_before_login_has_no_credential() {
    let mut c: HubClient<u8> = HubClient::new();
    c.channel_open_session(1).unwrap();
    assert_eq!(c.pty_request(1, "xterm", 0).err(), Some(ChannelError::NoCredential));
}

type Game = GameClient<String, u16, u8>;

#[test]
fn game_refuses_channels_before_authentication() {
    let mut c: Game = GameClient::new();
    assert_eq!(c.channel_open_session(1), Err(ChannelError::NotAuthenticated));
    assert_eq!(c.record_authentication("eve", None), AuthDecision::Reject);
    assert_eq!(c.channel_open_session(1), Err(ChannelError::NotAuthenticated));
}

#[test]
fn game_session_flow() {
    let mut c: Game = GameClient::new();
    assert_eq!(c.record_authentication("bo", Some(String::from("save"))), AuthDecision::Accept);
    assert_eq!(c.channel_open_session(1), Ok(true));
    assert_eq!(c.channel_open_session(1), Err(ChannelError::AlreadyOpen(1)));
    assert_eq!(c.data(1).err(), Some(ChannelError::SessionNotStarted));
    assert_eq!(c.shell_request(1, 3).err(), Some(ChannelError::ShellBeforePty));
    assert_eq!(c.pty_request(1, String::from("xterm"), 80, 24, 55), Ok(()));
    assert_eq!(c.pty_request(1, String::from("xterm"), 80, 24, 55), Err(ChannelError::PtyAlreadyAllocated));
    assert!(matches!(c.window_change_request(1, 100, 30), Ok(GameWindowChange::Recorded)));
    let start = c.shell_request(1, 3).ok().unwrap();
    assert_eq!(start.username, "bo");
    assert_eq!(start.auth, "save");
    assert_eq!(start.initial_size, (100, 30));
    assert_eq!(start.handle, 55);
    assert_eq!(c.data(1).ok(), Some(&3));
    assert!(matches!(c.window_change_request(1, 1, 1), Ok(GameWindowChange::Forward(&3))));
    assert!(matches!(c.channels.get(&1).unwrap().state, GameChannelState::Ready(3)));
    c.channel_close(1);
    assert_eq!(c.data(1).err(), Some(ChannelError::UnknownChannel(1)));
}

#[test]
fn game_unknown_channels_are_refused() {
    let mut c: Game = GameClient::new();
    assert_eq!(c.pty_request(4, String::new(), 1, 1, 0), Err(ChannelError::UnknownChannel(4)));
    assert!(matches!(c.window_change_request(4, 1, 1), Err(ChannelError::UnknownChannel(4))));
    assert!(matches!(c.shell_request(4, 0), Err(ChannelError::UnknownChannel(4))));
    assert!(matches!(c.exec_request(4, b"x", 0), Err(ChannelError::UnknownChannel(4))));
}

#[test]
fn game_exec_request_decodes_the_command() {
    let mut c: Game = GameClient::new();
    c.record_authentication("bo", Some(String::new()));
    c.channel_open_session(1).unwrap();
    c.pty_request(1, String::from("xterm"), 80, 24, 0).unwrap();
    let start = c.exec_request(1, b"play \xff now", 2).ok().unwrap();
    assert_eq!(start.exec_command, Some(String::from("play \u{fffd} now")));
}

#[test]
fn lossy_utf8() {
    for (raw, text) in [(&b"abc"[..], "abc"), (&b"a\xffb"[..], "a\u{fffd}b"), ("é".as_bytes(), "é")] {
        let mut c: Game = GameClient::new();
        c.record_authentication("bo", Some(String::new()));
        c.channel_open_session(1).unwrap();
        c.pty_request(1, String::from("xterm"), 80, 24, 0).unwrap();
        let start = c.exec_request(1, raw, 2).ok().unwrap();
        assert_eq!(start.exec_command, Some(String::from(text)));
    }
}

#[test]
fn window_change_before_pty_is_refused() {
    let mut c: Game = GameClient::new();
    c.record_authentication("bo", Some(String::new()));
    c.channel_open_session(1).unwrap();
    assert!(matches!(c.window_change_request(1, 1, 1), Err(ChannelError::PtyNotAllocated)));
}
