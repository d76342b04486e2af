use sshhub::keys::{generate, key_from_seed, load, load_or_generate, KeyError};

#[test]
fn generated_key_round_trips_through_storage() {
    let bytes = generate("test key").ok().unwrap();
    assert!(!bytes.is_empty());
    let key = load(&bytes).ok().unwrap();
    assert_eq!(key.comment().as_str_lossy(), "test key");
    let again = load(&bytes).ok().unwrap();
    assert_eq!(again.public_key(), key.public_key());
}

#[test]
fn garbage_is_not_a_key() {
    assert_eq!(load(b"not a key").err(), Some(KeyError::Decode));
    assert_eq!(load(&[]).err(), Some(KeyError::Decode));
}

#[test]
fn two_generated_keys_differ() {
    let a = load(&generate("a").ok().unwrap()).ok().unwrap();
    let b = load(&generate("b").ok().unwrap()).ok().unwrap();
    assert_ne!(a.public_key(), b.public_key());
}

#[test]
fn stored_key_is_reused() {
    let bytes = generate("stored").ok().unwrap();
    let host = load_or_generate(Some(&bytes), "fresh").ok().unwrap();
    assert!(!host.generated);
    assert_eq!(host.bytes, bytes);
    assert_eq!(load(&host.bytes).ok().unwrap().comment().as_str_lossy(), "stored");
}

#[test]
fn missing_or_broken_key_is_replaced_and_saved() {
    let host = load_or_generate(None, "fresh").ok().unwrap();
    assert!(host.generated);
    assert_eq!(load(&host.bytes).ok().unwrap().comment().as_str_lossy(), "fresh");
    let host = load_or_generate(Some(b"junk"), "fresh").ok().unwrap();
    assert!(host.generated);
    assert!(load(&host.bytes).is_ok());
}

#[test]
fn saved_key_reloads_as_the_same_key() {
    let first = load_or_generate(None, "fresh").ok().unwrap();
    let second = load_or_generate(Some(&first.bytes), "other").ok().unwrap();
    assert!(!second.generated);
    assert_eq!(second.bytes, first.bytes);
}

#[test]
fn key_from_a_seed_is_fixed_by_seed_and_comment() {
    let a = key_from_seed(&[7; 32], "one").ok().unwrap();
    assert_eq!(key_from_seed(&[7; 32], "one").ok().unwrap(), a);
    assert_ne!(key_from_seed(&[7; 32], "two").ok().unwrap(), a);
    assert_ne!(key_from_seed(&[8; 32], "one").ok().unwrap(), a);
    let key = load(&a).ok().unwrap();
    assert_eq!(key.comment().as_str_lossy(), "one");
}
