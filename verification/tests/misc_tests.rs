use sshhub::credential::UserCredential;
use sshhub::channel::ChannelError;
use sshhub::text::{concat2, concat3};

#[test]
fn credential_text() {
    assert_eq!(UserCredential::Password(String::from("pw")).as_str(), "pw");
    assert_eq!(UserCredential::PublicKey(String::from("ssh-ed25519 AAA")).as_str(), "ssh-ed25519 AAA");
}

#[test]
fn credential_copy_is_equal() {
    let c = UserCredential::PublicKey(String::from("k"));
    let d = c.clone();
    assert_eq!(d.as_str(), "k");
    assert!(matches!(d, UserCredential::PublicKey(_)));
}

#[test]
fn decimal_text() {
    assert_eq!(ChannelError::UnknownChannel(0).message(), "unknown channel: 0");
    assert_eq!(ChannelError::UnknownChannel(1234).message(), "unknown channel: 1234");
    assert_eq!(ChannelError::AlreadyOpen(u32::MAX).message(), "channel `4294967295` has been already opened");
}

#[test]
fn concatenation() {
    assert_eq!(concat2("ab", "cd"), "abcd");
    assert_eq!(concat3("a", "", "c"), "ac");
}
