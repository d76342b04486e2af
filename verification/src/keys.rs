//! The server's host key: decoding a stored key and generating a fresh
//! one in the SSH binary form that is stored. A key is handled here by that
//! binary form; reading and writing the key file is left to the caller.
use vstd::prelude::*;
use russh::keys::ssh_key;
use russh::keys::PrivateKey;
use crate::writer::append_bytes;

verus! {

#[verifier::external_type_specification]
#[verifier::external_body]
pub struct ExPrivateKey(russh::keys::PrivateKey);

#[verifier::external_type_specification]
#[verifier::external_body]
pub struct ExSshKeyError(russh::keys::ssh_key::Error);

/// Why a host key could not be produced.
#[derive(Clone, Copy, Debug, PartialEq, Eq, Structural)]
pub enum KeyError {
    /// The stored bytes are not a private key in SSH binary form.
    Decode,
    /// A fresh key could not be serialised.
    Encode,
}

/// Whether `bytes` parse as a private key in SSH binary form
/// (`PrivateKey::from_bytes` succeeds).
pub uninterp spec fn spec_private_key_parses(bytes: Seq<u8>) -> bool;

/// `PrivateKey::from_bytes`: parse a private key in SSH binary form.
#[verifier::external_body]
fn private_key_from_bytes(bytes: &[u8]) -> (r: Result<PrivateKey, ssh_key::Error>)
    ensures
        r is Ok == spec_private_key_parses(bytes@),
{
    PrivateKey::from_bytes(bytes)
}

/// Thirty-two random bytes from the thread-local generator
/// (`rand::rng().random()`); nothing is promised of their value.
#[verifier::external_body]
fn random_seed() -> (seed: [u8; 32]) {
    rand::RngExt::random(&mut rand::rng())
}

/// The SSH binary form of the unencrypted Ed25519 private key expanded
/// from `seed` and carrying `comment` (`Ed25519Keypair::from_seed`, taken
/// as `KeypairData`, then `PrivateKey::new` and `PrivateKey::to_bytes`), or
/// `None` when it cannot be serialised.
pub uninterp spec fn spec_ed25519_key_bytes(seed: Seq<u8>, comment: Seq<char>) -> Option<Seq<u8>>;

/// Comments short enough for a key to be serialised: the SSH encoding
/// writes lengths as 32-bit numbers.
pub open spec fn spec_comment_fits(comment: Seq<char>) -> bool {
    comment.len() < 0x2000_0000
}

/// Build and serialise the Ed25519 key expanded from `seed`, with
/// `comment`. `PrivateKey::new` refuses only encrypted key data, which an
/// Ed25519 key pair never is, and `to_bytes` fails only when a length does
/// not fit in 32 bits, which a comment of fewer than 2^29 characters (at
/// most 2^31 bytes) keeps clear of. The key pair's public half is derived
/// from its private half, so `PrivateKey::from_bytes` parses the bytes
/// back. What the bytes are is left unsaid.
#[verifier::external_body]
fn seed_key_bytes(seed: &[u8; 32], comment: &str) -> (r: Result<Vec<u8>, ssh_key::Error>)
    ensures
        r matches Ok(b) ==> spec_ed25519_key_bytes(seed@, comment@) == Some(b@),
        r is Err ==> spec_ed25519_key_bytes(seed@, comment@) is None,
        r matches Ok(b) ==> spec_private_key_parses(b@),
        spec_comment_fits(comment@) ==> r is Ok,
{
    let data = ssh_key::private::KeypairData::from(ssh_key::private::Ed25519Keypair::from_seed(seed));
    PrivateKey::new(data, comment)?.to_bytes().map(|b| b.to_vec())
}

/// The Ed25519 key expanded from `seed`, with `comment`, in SSH binary
/// form; `Encode` when it cannot be serialised (only for a comment too long
/// for the encoding).
pub fn key_from_seed(seed: &[u8; 32], comment: &str) -> (r: Result<Vec<u8>, KeyError>)
    ensures
        match spec_ed25519_key_bytes(seed@, comment@) {
            Some(b) => r matches Ok(v) && v@ == b,
            None => r == Err::<Vec<u8>, KeyError>(KeyError::Encode),
        },
        r matches Ok(b) ==> spec_private_key_parses(b@),
        spec_comment_fits(comment@) ==> r is Ok,
{
    match seed_key_bytes(seed, comment) {
        Ok(b) => Ok(b),
        Err(_) => Err(KeyError::Encode),
    }
}

/// Whether `r` is what `key_from_seed` gives for some 32-byte seed and
/// `comment`.
pub open spec fn spec_generated(comment: Seq<char>, r: Result<Vec<u8>, KeyError>) -> bool {
    exists|seed: Seq<u8>|
        seed.len() == 32 && #[trigger] spec_ed25519_key_bytes(seed, comment) == match r {
            Ok(b) => Some(b@),
            Err(_) => None::<Seq<u8>>,
        }
}

/// Parse a private key in SSH binary form; bytes that do not parse are
/// refused.
pub fn load(bytes: &[u8]) -> (r: Result<PrivateKey, KeyError>)
    ensures
        r is Ok == spec_private_key_parses(bytes@),
        r is Err ==> r == Err::<PrivateKey, KeyError>(KeyError::Decode),
{
    match private_key_from_bytes(bytes) {
        Ok(k) => Ok(k),
        Err(_) => Err(KeyError::Decode),
    }
}

/// A fresh Ed25519 key from a random seed, carrying `comment`, in SSH
/// binary form (`key_from_seed` on that seed); `load` parses it.
pub fn generate(comment: &str) -> (r: Result<Vec<u8>, KeyError>)
    ensures
        spec_generated(comment@, r),
        r matches Ok(b) ==> spec_private_key_parses(b@),
        r is Err ==> r == Err::<Vec<u8>, KeyError>(KeyError::Encode),
        spec_comment_fits(comment@) ==> r is Ok,
{
    let seed = random_seed();
    let r = key_from_seed(&seed, comment);
    assert(spec_ed25519_key_bytes(seed@, comment@) == match r {
        Ok(b) => Some(b@),
        Err(_) => None::<Seq<u8>>,
    });
    assert(seed@.len() == 32);
    r
}

/// The host key to use, in SSH binary form.
pub struct HostKey {
    pub bytes: Vec<u8>,
    /// The key was generated here and must be saved.
    pub generated: bool,
}

/// The stored bytes, by their view.
pub open spec fn spec_stored(stored: Option<&[u8]>) -> Option<Seq<u8>> {
    match stored {
        Some(b) => Some(b@),
        None => None,
    }
}

/// What `load_or_generate` may return for the stored bytes (`None` when the
/// key file could not be read) and `comment`: the stored key itself, not to
/// be saved, when it parses; otherwise what `generate` gives for `comment`
/// (a fresh key that parses, to be saved; `Encode` only for a comment too
/// long to serialise).
pub open spec fn spec_host_key_outcome(
    stored: Option<Seq<u8>>,
    comment: Seq<char>,
    r: Result<HostKey, KeyError>,
) -> bool {
    if stored is Some && spec_private_key_parses(stored->0) {
        r matches Ok(h) && h.bytes@ == stored->0 && !h.generated
    } else {
        &&& exists|seed: Seq<u8>|
            seed.len() == 32 && #[trigger] spec_ed25519_key_bytes(seed, comment) == match r {
                Ok(h) => Some(h.bytes@),
                Err(_) => None::<Seq<u8>>,
            }
        &&& match r {
            Ok(h) => h.generated && spec_private_key_parses(h.bytes@),
            Err(e) => e == KeyError::Encode,
        }
        &&& spec_comment_fits(comment) ==> r is Ok
    }
}

/// The host key from the stored bytes (`None` when the key file could not
/// be read): the stored key when it parses; otherwise a fresh key with
/// `comment`, to be saved.
pub fn load_or_generate(stored: Option<&[u8]>, comment: &str) -> (r: Result<HostKey, KeyError>)
    ensures
        spec_host_key_outcome(spec_stored(stored), comment@, r),
{
    if let Some(bytes) = stored {
        if let Ok(_) = private_key_from_bytes(bytes) {
            let mut copy: Vec<u8> = Vec::new();
            append_bytes(&mut copy, bytes);
            return Ok(HostKey { bytes: copy, generated: false });
        }
    }
    let g = generate(comment);
    let r = match g {
        Ok(bytes) => Ok(HostKey { bytes, generated: true }),
        Err(e) => Err(e),
    };
    proof {
        let seed = choose|seed: Seq<u8>|
            seed.len() == 32 && #[trigger] spec_ed25519_key_bytes(seed, comment@) == match g {
                Ok(b) => Some(b@),
                Err(_) => None::<Seq<u8>>,
            };
        assert(spec_ed25519_key_bytes(seed, comment@) == match r {
            Ok(h) => Some(h.bytes@),
            Err(_) => None::<Seq<u8>>,
        });
    }
    r
}

/// The host key persists: once a key (stored or generated) is saved, the
/// next start loads exactly that key and saves nothing.
pub proof fn lemma_saved_key_reloads(
    first: HostKey,
    stored: Option<Seq<u8>>,
    comment: Seq<char>,
    later_comment: Seq<char>,
    second: Result<HostKey, KeyError>,
)
    requires
        spec_host_key_outcome(stored, comment, Ok(first)),
        spec_host_key_outcome(Some(first.bytes@), later_comment, second),
    ensures
        second matches Ok(h) && h.bytes@ == first.bytes@ && !h.generated,
{
}

} // verus!
