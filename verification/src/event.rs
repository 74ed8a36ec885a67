//! Signed text notes.
//!
//! A [`NoteEvent`] cannot be changed once it exists, and it exists only if
//! its identifier is the digest of its other fields and its signature
//! verifies under its own public key. Hashing, signing and signature
//! verification are done by `nostr_sdk`; this module decides when an event
//! may be formed and reports why it may not.

use vstd::prelude::*;
use nostr_sdk::secp256k1::schnorr::Signature;
use nostr_sdk::secp256k1::Message;
use nostr_sdk::secp256k1::SecretKey;
use nostr_sdk::secp256k1::XOnlyPublicKey;
use nostr_sdk::EventId;
use nostr_sdk::Keys;
use nostr_sdk::Kind;
use nostr_sdk::Tag;
use nostr_sdk::Timestamp;
use crate::bytes::bytes_equal;
use crate::bytes::copy_bytes;
use crate::keys::schnorr_public_key;
use crate::keys::KeyPair;

verus! {

/// The kind number of a short text note.
pub const KIND_TEXT_NOTE: u64 = 1;

/// Length in bytes of an event identifier.
pub const DIGEST_LEN: usize = 32;

/// Length in bytes of an x-only public key.
pub const PUBLIC_KEY_LEN: usize = 32;

/// Length in bytes of a Schnorr signature.
pub const SIGNATURE_LEN: usize = 64;

/// Why an event could not be formed.
#[derive(Clone, Copy, Debug, PartialEq, Eq, Structural)]
pub enum EventError {
    /// The public key bytes are not a public key, so no identifier exists.
    InvalidPublicKey,
    /// The signer did not produce a signature with the given secret.
    SigningFailed,
    /// The identifier is not the digest of the other fields.
    IdMismatch,
    /// The signature does not verify under the public key.
    SignatureInvalid,
}

/// The identifier that `nostr_sdk` computes for an event, `None` where it
/// does not accept the bytes as a public key or the strings as tags.
pub uninterp spec fn note_id(
    public_key: Seq<u8>,
    created_at: u64,
    kind: u64,
    tags: Seq<Seq<Seq<char>>>,
    content: Seq<char>,
) -> Option<Seq<u8>>;

/// Whether `nostr_sdk` accepts a signature for a digest under a public key.
pub uninterp spec fn schnorr_valid(public_key: Seq<u8>, digest: Seq<u8>, signature: Seq<u8>) -> bool;

/// Calls `EventId::new` of `nostr_sdk` on the public key that
/// `XOnlyPublicKey::from_slice` reads from the bytes and on the tags that
/// `Tag::parse` reads from the strings. The result is taken to be a
/// function of the arguments alone. An identifier is a SHA-256 digest of 32
/// bytes, and only 32 bytes are read as a public key. Only an empty tag
/// list is admitted, so that nothing is claimed of how tags are read.
#[verifier::external_body]
fn identifier_of_note(
    public_key: &Vec<u8>,
    created_at: u64,
    kind: u64,
    tags: &Vec<Vec<String>>,
    content: &str,
) -> (id: Option<Vec<u8>>)
    requires
        tags@.len() == 0,
    ensures
        match id {
            Some(d) => note_id(public_key@, created_at, kind, tags.deep_view(), content@) == Some(
                d@,
            ) && d@.len() == DIGEST_LEN && public_key@.len() == PUBLIC_KEY_LEN,
            None => note_id(public_key@, created_at, kind, tags.deep_view(), content@) is None,
        },
{
    let parsed: Result<Vec<Tag>, _> = tags.iter().map(|t| Tag::parse(t.clone())).collect();
    match (XOnlyPublicKey::from_slice(public_key.as_slice()), parsed) {
        (Ok(pk), Ok(list)) => {
            let at = Timestamp::from(created_at);
            Some(EventId::new(&pk, at, &Kind::from(kind), &list, content).as_bytes().to_vec())
        },
        _ => None,
    }
}

/// What the signer needs: a secret that has a public key, and a digest of
/// 32 bytes.
pub open spec fn can_sign(secret: Seq<u8>, digest: Seq<u8>) -> bool {
    schnorr_public_key(secret) is Some && digest.len() == DIGEST_LEN
}

/// Calls `Keys::sign_schnorr` of `nostr_sdk` with the key pair of the given
/// secret on the given digest. The signer draws auxiliary randomness, so
/// two calls need not agree; a signature that comes back has 64 bytes. One
/// comes back exactly when `SecretKey::from_slice` reads the secret, which
/// are the secrets that have a public key, and the digest has 32 bytes:
/// `Keys::new` keeps the key pair, so the signer has nothing else to fail
/// on.
#[verifier::external_body]
fn sign_digest(secret: &Vec<u8>, digest: &Vec<u8>) -> (signature: Option<Vec<u8>>)
    ensures
        signature matches Some(s) ==> s@.len() == SIGNATURE_LEN,
        signature is Some <==> can_sign(secret@, digest@),
{
    match (SecretKey::from_slice(secret.as_slice()), Message::from_slice(digest.as_slice())) {
        (Ok(sk), Ok(msg)) => match Keys::new(sk).sign_schnorr(&msg) {
            Ok(sig) => Some(sig.as_ref().to_vec()),
            Err(_) => None,
        },
        _ => None,
    }
}

/// Calls `Signature::verify` of `secp256k1`, as re-exported by `nostr_sdk`,
/// on what `from_slice` reads from the three byte strings; bytes that are
/// not read count as a failed verification. The result is taken to be a
/// function of the bytes alone. Only 64 bytes are read as a signature.
#[verifier::external_body]
fn signature_verifies(public_key: &Vec<u8>, digest: &Vec<u8>, signature: &Vec<u8>) -> (valid: bool)
    ensures
        valid == schnorr_valid(public_key@, digest@, signature@),
        valid ==> signature@.len() == SIGNATURE_LEN,
{
    match (
        XOnlyPublicKey::from_slice(public_key.as_slice()),
        Message::from_slice(digest.as_slice()),
        Signature::from_slice(signature.as_slice()),
    ) {
        (Ok(pk), Ok(msg), Ok(sig)) => sig.verify(&msg, &pk).is_ok(),
        _ => false,
    }
}

/// The fields of an event as mathematical values.
pub ghost struct NoteEventView {
    pub public_key: Seq<u8>,
    pub created_at: u64,
    pub kind: u64,
    pub tags: Seq<Seq<Seq<char>>>,
    pub content: Seq<char>,
    pub id: Seq<u8>,
    pub signature: Seq<u8>,
}

impl NoteEventView {
    /// The event is a text note without tags, its identifier is the digest
    /// of its other fields, and its signature over that identifier verifies
    /// under its own public key.
    pub open spec fn consistent(self) -> bool {
        &&& self.kind == KIND_TEXT_NOTE
        &&& self.tags.len() == 0
        &&& self.public_key.len() == PUBLIC_KEY_LEN
        &&& self.id.len() == DIGEST_LEN
        &&& self.signature.len() == SIGNATURE_LEN
        &&& note_id(self.public_key, self.created_at, self.kind, self.tags, self.content) == Some(
            self.id,
        )
        &&& schnorr_valid(self.public_key, self.id, self.signature)
    }
}

/// The text note with the given fields.
pub open spec fn text_note(
    public_key: Seq<u8>,
    created_at: u64,
    content: Seq<char>,
    id: Seq<u8>,
    signature: Seq<u8>,
) -> NoteEventView {
    NoteEventView {
        public_key,
        created_at,
        kind: KIND_TEXT_NOTE,
        tags: Seq::empty(),
        content,
        id,
        signature,
    }
}

/// A signed text note.
pub struct NoteEvent {
    public_key: Vec<u8>,
    created_at: u64,
    kind: u64,
    tags: Vec<Vec<String>>,
    content: String,
    id: Vec<u8>,
    signature: Vec<u8>,
}

impl View for NoteEvent {
    type V = NoteEventView;

    closed spec fn view(&self) -> NoteEventView {
        NoteEventView {
            public_key: self.public_key@,
            created_at: self.created_at,
            kind: self.kind,
            tags: self.tags.deep_view(),
            content: self.content@,
            id: self.id@,
            signature: self.signature@,
        }
    }
}

impl NoteEvent {
    #[verifier::type_invariant]
    spec fn inv(self) -> bool {
        self@.consistent()
    }

    /// Forms an event from fields that were produced elsewhere, provided
    /// that they belong together.
    pub fn from_parts(
        public_key: Vec<u8>,
        created_at: u64,
        content: String,
        id: Vec<u8>,
        signature: Vec<u8>,
    ) -> (r: Result<NoteEvent, EventError>)
        ensures
            match r {
                Ok(event) => event@ == text_note(
                    public_key@,
                    created_at,
                    content@,
                    id@,
                    signature@,
                ) && event@.consistent(),
                Err(e) => !text_note(public_key@, created_at, content@, id@, signature@).consistent()
                    && (e == EventError::IdMismatch || e == EventError::SignatureInvalid) && (e
                    == EventError::IdMismatch <==> note_id(
                    public_key@,
                    created_at,
                    KIND_TEXT_NOTE,
                    Seq::empty(),
                    content@,
                ) != Some(id@)),
            },
    {
        let tags: Vec<Vec<String>> = Vec::new();
        assert(tags.deep_view() =~= Seq::<Seq<Seq<char>>>::empty());
        match identifier_of_note(&public_key, created_at, KIND_TEXT_NOTE, &tags, content.as_str()) {
            Some(digest) => {
                if !bytes_equal(&digest, &id) {
                    return Err(EventError::IdMismatch);
                }
            },
            None => {
                return Err(EventError::IdMismatch);
            },
        }
        if !signature_verifies(&public_key, &id, &signature) {
            return Err(EventError::SignatureInvalid);
        }
        let event = NoteEvent {
            public_key,
            created_at,
            kind: KIND_TEXT_NOTE,
            tags,
            content,
            id,
            signature,
        };
        Ok(event)
    }

    /// Whether the event's signature verifies under the given public key.
    /// Under the event's own key it does.
    pub fn signed_by(&self, public_key: &Vec<u8>) -> (valid: bool)
        ensures
            valid == schnorr_valid(public_key@, self@.id, self@.signature),
            public_key@ == self@.public_key ==> valid,
    {
        proof {
            use_type_invariant(self);
        }
        signature_verifies(public_key, &self.id, &self.signature)
    }

    /// The author's x-only public key.
    pub fn public_key(&self) -> (out: &Vec<u8>)
        ensures
            out@ == self@.public_key,
            out@.len() == PUBLIC_KEY_LEN,
    {
        proof {
            use_type_invariant(self);
        }
        &self.public_key
    }

    /// Creation time in seconds since the Unix epoch.
    pub fn created_at(&self) -> (out: u64)
        ensures
            out == self@.created_at,
    {
        self.created_at
    }

    /// The kind number, which is that of a text note.
    pub fn kind(&self) -> (out: u64)
        ensures
            out == self@.kind,
            out == KIND_TEXT_NOTE,
    {
        proof {
            use_type_invariant(self);
        }
        self.kind
    }

    /// The tags, of which a note built here has none.
    pub fn tags(&self) -> (out: &Vec<Vec<String>>)
        ensures
            out.deep_view() == self@.tags,
            out@.len() == 0,
    {
        proof {
            use_type_invariant(self);
        }
        &self.tags
    }

    /// The text of the note.
    pub fn content(&self) -> (out: &String)
        ensures
            out@ == self@.content,
    {
        &self.content
    }

    /// The identifier: the digest of the other fields.
    pub fn id(&self) -> (out: &Vec<u8>)
        ensures
            out@ == self@.id,
            out@.len() == DIGEST_LEN,
    {
        proof {
            use_type_invariant(self);
        }
        &self.id
    }

    /// The signature over the identifier.
    pub fn signature(&self) -> (out: &Vec<u8>)
        ensures
            out@ == self@.signature,
            out@.len() == SIGNATURE_LEN,
    {
        proof {
            use_type_invariant(self);
        }
        &self.signature
    }
}

/// Builds signed text notes.
pub struct EventBuilder;

impl EventBuilder {
    /// Decides what [`EventBuilder::build`] returns once the identifier is
    /// known, given what the signer produced.
    pub fn seal(
        public_key: Vec<u8>,
        created_at: u64,
        content: String,
        id: Vec<u8>,
        signature: Option<Vec<u8>>,
    ) -> (r: Result<NoteEvent, EventError>)
        ensures
            match r {
                Ok(event) => signature is Some && event@ == text_note(
                    public_key@,
                    created_at,
                    content@,
                    id@,
                    signature->0@,
                ) && event@.consistent(),
                Err(e) => match signature {
                    None => e == EventError::SigningFailed,
                    Some(s) => !text_note(public_key@, created_at, content@, id@, s@).consistent()
                        && (e == EventError::IdMismatch || e == EventError::SignatureInvalid) && (e
                        == EventError::IdMismatch <==> note_id(
                        public_key@,
                        created_at,
                        KIND_TEXT_NOTE,
                        Seq::empty(),
                        content@,
                    ) != Some(id@)),
                },
            },
    {
        match signature {
            Some(s) => NoteEvent::from_parts(public_key, created_at, content, id, s),
            None => Err(EventError::SigningFailed),
        }
    }

    /// Builds and signs a text note with the given content and creation
    /// time, authored by the given key pair. Any content is accepted,
    /// the empty string included.
    ///
    /// The signature is verified before the event is handed out. A public
    /// key that is none and a secret that is none are each reported as
    /// such; with both in order the only failure left is a signature that
    /// does not verify, which is up to the signer.
    pub fn build(content: &str, keypair: &KeyPair, timestamp: u64) -> (r: Result<
        NoteEvent,
        EventError,
    >)
        ensures
            match r {
                Ok(event) => event@.consistent() && event@.public_key == keypair.public_key@
                    && event@.created_at == timestamp && event@.content == content@,
                Err(e) => build_refusal(e, keypair@.public_key, keypair@.private_key, timestamp, content@),
            },
    {
        let tags: Vec<Vec<String>> = Vec::new();
        assert(tags.deep_view() =~= Seq::<Seq<Seq<char>>>::empty());
        match identifier_of_note(&keypair.public_key, timestamp, KIND_TEXT_NOTE, &tags, content) {
            Some(id) => {
                let signature = sign_digest(&keypair.private_key, &id);
                Self::seal(
                    copy_bytes(&keypair.public_key),
                    timestamp,
                    content.to_owned(),
                    id,
                    signature,
                )
            },
            None => Err(EventError::InvalidPublicKey),
        }
    }
}

/// Whether `error` is what a build with the given author, secret, time and
/// content may fail with: an invalid public key exactly if no identifier
/// exists; failed signing exactly if one exists and the secret is none;
/// otherwise a signature that did not verify.
pub open spec fn build_refusal(
    error: EventError,
    public_key: Seq<u8>,
    private_key: Seq<u8>,
    created_at: u64,
    content: Seq<char>,
) -> bool {
    let id = note_id(public_key, created_at, KIND_TEXT_NOTE, Seq::empty(), content);
    &&& error != EventError::IdMismatch
    &&& error == EventError::InvalidPublicKey <==> id is None
    &&& error == EventError::SigningFailed <==> id is Some && schnorr_public_key(private_key)
        is None
}

/// The signature of a consistent event verifies under the event's own
/// public key, and its identifier is the digest of its other fields.
pub proof fn lemma_consistent_event_verifies(event: NoteEventView)
    requires
        event.consistent(),
    ensures
        schnorr_valid(event.public_key, event.id, event.signature),
        note_id(event.public_key, event.created_at, event.kind, event.tags, event.content) == Some(
            event.id,
        ),
{
}

/// Two consistent events that agree on author, time and content have the
/// same identifier.
pub proof fn lemma_identifier_determined(a: NoteEventView, b: NoteEventView)
    requires
        a.consistent(),
        b.consistent(),
        a.public_key == b.public_key,
        a.created_at == b.created_at,
        a.content == b.content,
    ensures
        a.id == b.id,
{
    assert(a.tags =~= b.tags);
}

} // verus!
