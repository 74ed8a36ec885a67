//! Throw-away signing identities.
//!
//! A key pair is made for one publish operation and dropped with it. The
//! secret is drawn from the operating system's entropy source and the
//! public key is derived from it, both by way of `nostr_sdk`.

use vstd::prelude::*;
use nostr_sdk::secp256k1::rand::rngs::OsRng;
use nostr_sdk::secp256k1::rand::RngCore;
use nostr_sdk::secp256k1::SecretKey;
use nostr_sdk::Keys;

verus! {

/// Length in bytes of a secret key and of an x-only public key.
pub const KEY_LEN: usize = 32;

/// Why no key pair could be made.
#[derive(Clone, Copy, Debug, PartialEq, Eq, Structural)]
pub enum KeyError {
    /// The entropy source did not deliver a usable secret.
    EntropyUnavailable,
    /// The given bytes are not a secret key.
    InvalidSecret,
}

/// A secret key with the public key that belongs to it.
pub struct KeyPair {
    pub public_key: Vec<u8>,
    pub private_key: Vec<u8>,
}

/// A key pair as mathematical values.
pub ghost struct KeyPairView {
    pub public_key: Seq<u8>,
    pub private_key: Seq<u8>,
}

impl View for KeyPair {
    type V = KeyPairView;

    open spec fn view(&self) -> KeyPairView {
        KeyPairView { public_key: self.public_key@, private_key: self.private_key@ }
    }
}

/// The x-only public key that `nostr_sdk` derives from a secret, `None`
/// where it does not accept the bytes as a secret key.
pub uninterp spec fn schnorr_public_key(secret: Seq<u8>) -> Option<Seq<u8>>;

/// Calls `try_fill_bytes` on the `OsRng` that `nostr_sdk` re-exports, with
/// a buffer of `count` bytes. The bytes are random, so nothing is claimed
/// of them but their number, and two calls are not expected to agree. A
/// failure of the operating system's source is reported as `None`.
#[verifier::external_body]
fn random_bytes(count: usize) -> (bytes: Option<Vec<u8>>)
    ensures
        bytes matches Some(b) ==> b@.len() == count,
{
    let mut buffer = vec![0u8; count];
    match OsRng.try_fill_bytes(buffer.as_mut_slice()) {
        Ok(_) => Some(buffer),
        Err(_) => None,
    }
}

/// Calls `Keys::new` of `nostr_sdk` on the secret key that
/// `SecretKey::from_slice` reads from the bytes, and hands out the
/// serialized public key. The result is taken to be a function of the bytes
/// alone. A serialized x-only public key has 32 bytes.
#[verifier::external_body]
fn public_key_of_secret(secret: &Vec<u8>) -> (public: Option<Vec<u8>>)
    ensures
        match public {
            Some(p) => schnorr_public_key(secret@) == Some(p@) && p@.len() == KEY_LEN,
            None => schnorr_public_key(secret@) is None,
        },
{
    match SecretKey::from_slice(secret.as_slice()) {
        Ok(sk) => Some(Keys::new(sk).public_key().serialize().to_vec()),
        Err(_) => None,
    }
}

impl KeyPairView {
    /// Both halves have the right length and the public key is the one
    /// that belongs to the secret.
    pub open spec fn wf(self) -> bool {
        &&& self.private_key.len() == KEY_LEN
        &&& self.public_key.len() == KEY_LEN
        &&& schnorr_public_key(self.private_key) == Some(self.public_key)
    }
}

/// Whether bytes are the secret of a key pair.
pub open spec fn usable_secret(secret: Seq<u8>) -> bool {
    secret.len() == KEY_LEN && schnorr_public_key(secret) is Some
}

/// The key pair of a secret, where the secret has one.
pub open spec fn pair_of_secret(secret: Seq<u8>) -> Option<KeyPairView> {
    if usable_secret(secret) {
        Some(KeyPairView { public_key: schnorr_public_key(secret)->0, private_key: secret })
    } else {
        None
    }
}

/// What [`KeyPair::from_generated`] makes of a draw from the entropy
/// source.
pub open spec fn pair_of_draw(draw: Option<Vec<u8>>) -> Result<KeyPairView, KeyError> {
    match draw {
        Some(secret) => match pair_of_secret(secret@) {
            Some(pair) => Ok(pair),
            None => Err(KeyError::EntropyUnavailable),
        },
        None => Err(KeyError::EntropyUnavailable),
    }
}

impl KeyPair {
    /// Both halves have the right length and the public key is the one
    /// that belongs to the secret.
    pub open spec fn wf(&self) -> bool {
        self@.wf()
    }

    /// Makes the key pair of a given secret.
    pub fn from_secret(secret: Vec<u8>) -> (r: Result<KeyPair, KeyError>)
        ensures
            match r {
                Ok(pair) => pair_of_secret(secret@) == Some(pair@) && pair.wf(),
                Err(e) => e == KeyError::InvalidSecret && pair_of_secret(secret@) is None,
            },
    {
        if secret.len() != KEY_LEN {
            return Err(KeyError::InvalidSecret);
        }
        match public_key_of_secret(&secret) {
            Some(public_key) => Ok(KeyPair { public_key, private_key: secret }),
            None => Err(KeyError::InvalidSecret),
        }
    }

    /// Makes the key pair of what the entropy source delivered: the pair
    /// whose secret is the draw. A missing draw, or one that is no secret
    /// key, counts as a failure of the entropy source.
    pub fn from_generated(draw: Option<Vec<u8>>) -> (r: Result<KeyPair, KeyError>)
        ensures
            match r {
                Ok(pair) => pair_of_draw(draw) == Ok::<KeyPairView, KeyError>(pair@) && pair.wf(),
                Err(e) => pair_of_draw(draw) == Err::<KeyPairView, KeyError>(e),
            },
    {
        match draw {
            Some(secret) => match Self::from_secret(secret) {
                Ok(pair) => Ok(pair),
                Err(_) => Err(KeyError::EntropyUnavailable),
            },
            None => Err(KeyError::EntropyUnavailable),
        }
    }

    /// Generates a fresh key pair: draws 32 bytes from the system's entropy
    /// source and makes the pair whose secret they are.
    ///
    /// Which pair comes back is not determined by anything the caller
    /// passes in; whatever comes back is well formed. The only failure is
    /// that of the entropy source, and it is returned, not raised.
    pub fn generate() -> (r: Result<KeyPair, KeyError>)
        ensures
            match r {
                Ok(pair) => pair.wf(),
                Err(e) => e == KeyError::EntropyUnavailable,
            },
    {
        Self::from_generated(random_bytes(KEY_LEN))
    }
}

/// A key pair is decided by the draw it was made from and by nothing else:
/// the same draw gives the same pair, and two different draws give two
/// different secrets.
pub proof fn lemma_pair_decided_by_draw(a: Option<Vec<u8>>, b: Option<Vec<u8>>)
    requires
        pair_of_draw(a) is Ok,
        pair_of_draw(b) is Ok,
    ensures
        a->0@ == b->0@ ==> pair_of_draw(a) == pair_of_draw(b),
        a->0@ != b->0@ ==> pair_of_draw(a)->Ok_0.private_key != pair_of_draw(b)->Ok_0.private_key,
        pair_of_draw(a)->Ok_0.private_key == a->0@,
{
}

} // verus!
