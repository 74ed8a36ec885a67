//! The display form of an event identifier: a checksummed, human-shareable
//! text that starts with `note1`.
//!
//! The text encoding itself is done by `nostr_sdk`. What this module adds is
//! the contract around it: which inputs are refused, how a refusal of the
//! decoder is reported, and that a text handed out by [`encode`] always
//! decodes to the identifier it was made from.

use vstd::prelude::*;
use nostr_sdk::bech32;
use nostr_sdk::nips::nip19::Error;
use nostr_sdk::nips::nip19::FromBech32;
use nostr_sdk::nips::nip19::ToBech32;
use nostr_sdk::EventId;
use crate::bytes::bytes_equal;

verus! {

/// Length in bytes of a raw event identifier.
pub const IDENTIFIER_LEN: usize = 32;

/// Why a text could not be read as a display identifier.
#[derive(Clone, Copy, Debug, PartialEq, Eq, Structural)]
pub enum EncodingError {
    /// The text is well formed but its checksum does not match its data.
    ChecksumMismatch,
    /// The text or the identifier does not have the expected shape.
    MalformedInput,
}

/// The ways in which `nostr_sdk` turns down a text that should hold an
/// identifier, one for each variant of its error.
#[derive(Clone, Copy, Debug, PartialEq, Eq, Structural)]
pub enum NoteFault {
    /// The text is no valid bech32 text, or its data does not regroup
    /// into bytes.
    Bech32,
    /// Text inside the data is no UTF-8.
    Utf8,
    /// The data is no key.
    Secp256k1,
    /// The data is no digest.
    Hash,
    /// The data is no event identifier.
    EventId,
    /// The text is valid but is not a note identifier, or it uses the
    /// other checksum variant.
    WrongPrefixOrVariant,
    /// A field is missing in the data.
    FieldMissing,
    /// The data is no sequence of typed, length-prefixed values.
    Tlv,
    /// The data has the wrong number of bytes.
    TryFromSlice,
}

/// The ways in which the bech32 reader turns down a text, one for each
/// variant of its error.
#[derive(Clone, Copy, Debug, PartialEq, Eq, Structural)]
pub enum Bech32Fault {
    /// The text holds no separator.
    MissingSeparator,
    /// The checksum characters do not match the rest of the text.
    InvalidChecksum,
    /// A part of the text is too long or too short.
    InvalidLength,
    /// The text holds a character that is not allowed.
    InvalidChar,
    /// The data holds a value that is not allowed.
    InvalidData,
    /// The data does not regroup into bytes.
    InvalidPadding,
    /// The text mixes upper and lower case.
    MixedCase,
}

/// The text that `nostr_sdk` gives for a raw identifier, `None` where it
/// refuses the bytes.
pub uninterp spec fn note_bech32(raw: Seq<u8>) -> Option<Seq<char>>;

/// What `nostr_sdk` reads out of a text: the raw identifier, or the variant
/// of the error with which it turned the text down.
pub uninterp spec fn note_bech32_decoding(text: Seq<char>) -> Result<Seq<u8>, NoteFault>;

/// What the bech32 reader finds wrong with a text, `None` where it accepts
/// the text.
pub uninterp spec fn bech32_reading(text: Seq<char>) -> Option<Bech32Fault>;

/// Calls `EventId::to_bech32` of `nostr_sdk` on the identifier made from
/// `raw` by `EventId::from_slice`. The result is taken to be a function of
/// the bytes alone. A text comes back exactly for 32 bytes: `from_slice`
/// takes a digest's length and no other, and the encoder fails on a bad
/// prefix only, while the prefix used is the crate's own `note`.
#[verifier::external_body]
fn bech32_of_identifier(raw: &Vec<u8>) -> (text: Option<String>)
    ensures
        match text {
            Some(t) => note_bech32(raw@) == Some(t@),
            None => note_bech32(raw@) is None,
        },
        text is Some <==> raw@.len() == IDENTIFIER_LEN,
{
    match EventId::from_slice(raw.as_slice()) {
        Ok(id) => id.to_bech32().ok(),
        Err(_) => None,
    }
}

/// Calls `EventId::from_bech32` of `nostr_sdk`. The result is taken to be a
/// function of the text alone. An identifier that comes back has 32 bytes,
/// since an `EventId` holds a SHA-256 digest. The error is reported by its
/// variant, one arm for each.
#[verifier::external_body]
fn identifier_of_bech32(text: &str) -> (raw: Result<Vec<u8>, NoteFault>)
    ensures
        match raw {
            Ok(id) => note_bech32_decoding(text@) == Ok::<Seq<u8>, NoteFault>(id@) && id@.len()
                == IDENTIFIER_LEN,
            Err(fault) => note_bech32_decoding(text@) == Err::<Seq<u8>, NoteFault>(fault),
        },
{
    match EventId::from_bech32(text) {
        Ok(id) => Ok(id.as_bytes().to_vec()),
        Err(Error::Bech32(_)) => Err(NoteFault::Bech32),
        Err(Error::UTF8(_)) => Err(NoteFault::Utf8),
        Err(Error::Secp256k1(_)) => Err(NoteFault::Secp256k1),
        Err(Error::Hash(_)) => Err(NoteFault::Hash),
        Err(Error::EventId(_)) => Err(NoteFault::EventId),
        Err(Error::WrongPrefixOrVariant) => Err(NoteFault::WrongPrefixOrVariant),
        Err(Error::FieldMissing(_)) => Err(NoteFault::FieldMissing),
        Err(Error::TLV) => Err(NoteFault::Tlv),
        Err(Error::TryFromSlice) => Err(NoteFault::TryFromSlice),
    }
}

/// Calls `bech32::decode`, as re-exported by `nostr_sdk`, and reports the
/// variant of its error, one arm for each, or `None` where it accepts the
/// text. The result is taken to be a function of the text alone.
#[verifier::external_body]
fn bech32_fault_of(text: &str) -> (fault: Option<Bech32Fault>)
    ensures
        fault == bech32_reading(text@),
{
    match bech32::decode(text) {
        Ok(_) => None,
        Err(bech32::Error::MissingSeparator) => Some(Bech32Fault::MissingSeparator),
        Err(bech32::Error::InvalidChecksum) => Some(Bech32Fault::InvalidChecksum),
        Err(bech32::Error::InvalidLength) => Some(Bech32Fault::InvalidLength),
        Err(bech32::Error::InvalidChar(_)) => Some(Bech32Fault::InvalidChar),
        Err(bech32::Error::InvalidData(_)) => Some(Bech32Fault::InvalidData),
        Err(bech32::Error::InvalidPadding) => Some(Bech32Fault::InvalidPadding),
        Err(bech32::Error::MixedCase) => Some(Bech32Fault::MixedCase),
    }
}

/// The error reported for a text that was turned down with `fault`, where
/// `reading` is what the bech32 reader found wrong with the text. A text is
/// a checksum mismatch if it failed as bech32 text and the reader found
/// its checksum wrong; it is malformed in every other case.
pub open spec fn classify_spec(fault: NoteFault, reading: Option<Bech32Fault>) -> EncodingError {
    match fault {
        NoteFault::Bech32 => match reading {
            Some(Bech32Fault::InvalidChecksum) => EncodingError::ChecksumMismatch,
            Some(Bech32Fault::MissingSeparator) => EncodingError::MalformedInput,
            Some(Bech32Fault::InvalidLength) => EncodingError::MalformedInput,
            Some(Bech32Fault::InvalidChar) => EncodingError::MalformedInput,
            Some(Bech32Fault::InvalidData) => EncodingError::MalformedInput,
            Some(Bech32Fault::InvalidPadding) => EncodingError::MalformedInput,
            Some(Bech32Fault::MixedCase) => EncodingError::MalformedInput,
            None => EncodingError::MalformedInput,
        },
        NoteFault::Utf8 => EncodingError::MalformedInput,
        NoteFault::Secp256k1 => EncodingError::MalformedInput,
        NoteFault::Hash => EncodingError::MalformedInput,
        NoteFault::EventId => EncodingError::MalformedInput,
        NoteFault::WrongPrefixOrVariant => EncodingError::MalformedInput,
        NoteFault::FieldMissing => EncodingError::MalformedInput,
        NoteFault::Tlv => EncodingError::MalformedInput,
        NoteFault::TryFromSlice => EncodingError::MalformedInput,
    }
}

/// What [`decode`] returns for a text.
pub open spec fn decode_spec(text: Seq<char>) -> Result<Seq<u8>, EncodingError> {
    match note_bech32_decoding(text) {
        Ok(raw) => Ok(raw),
        Err(fault) => Err(classify_spec(fault, bech32_reading(text))),
    }
}

/// What [`encode`] returns for a raw identifier: the text of the outside
/// encoder, provided that the identifier has 32 bytes and that the text
/// reads back as the same identifier.
pub open spec fn encode_spec(raw: Seq<u8>) -> Result<Seq<char>, EncodingError> {
    if raw.len() != IDENTIFIER_LEN {
        Err(EncodingError::MalformedInput)
    } else {
        match note_bech32(raw) {
            Some(text) => if note_bech32_decoding(text) == Ok::<Seq<u8>, NoteFault>(raw) {
                Ok(text)
            } else {
                Err(EncodingError::MalformedInput)
            },
            None => Err(EncodingError::MalformedInput),
        }
    }
}

/// Maps a refusal of the decoder to the error that callers see.
pub fn classify(fault: NoteFault, reading: Option<Bech32Fault>) -> (error: EncodingError)
    ensures
        error == classify_spec(fault, reading),
{
    match fault {
        NoteFault::Bech32 => match reading {
            Some(Bech32Fault::InvalidChecksum) => EncodingError::ChecksumMismatch,
            Some(Bech32Fault::MissingSeparator) => EncodingError::MalformedInput,
            Some(Bech32Fault::InvalidLength) => EncodingError::MalformedInput,
            Some(Bech32Fault::InvalidChar) => EncodingError::MalformedInput,
            Some(Bech32Fault::InvalidData) => EncodingError::MalformedInput,
            Some(Bech32Fault::InvalidPadding) => EncodingError::MalformedInput,
            Some(Bech32Fault::MixedCase) => EncodingError::MalformedInput,
            None => EncodingError::MalformedInput,
        },
        NoteFault::Utf8 => EncodingError::MalformedInput,
        NoteFault::Secp256k1 => EncodingError::MalformedInput,
        NoteFault::Hash => EncodingError::MalformedInput,
        NoteFault::EventId => EncodingError::MalformedInput,
        NoteFault::WrongPrefixOrVariant => EncodingError::MalformedInput,
        NoteFault::FieldMissing => EncodingError::MalformedInput,
        NoteFault::Tlv => EncodingError::MalformedInput,
        NoteFault::TryFromSlice => EncodingError::MalformedInput,
    }
}

/// Whether the decoder read `raw` back out of a text.
pub open spec fn reads_back_as(read_back: Result<Vec<u8>, NoteFault>, raw: Seq<u8>) -> bool {
    match read_back {
        Ok(id) => id@ == raw,
        Err(_) => false,
    }
}

/// Decides what [`encode`] hands out, given the text of the encoder and
/// what the decoder read back from it.
pub fn checked_text(
    raw: &Vec<u8>,
    text: String,
    read_back: Result<Vec<u8>, NoteFault>,
) -> (r: Result<String, EncodingError>)
    ensures
        match r {
            Ok(t) => t@ == text@ && reads_back_as(read_back, raw@),
            Err(e) => e == EncodingError::MalformedInput && !reads_back_as(read_back, raw@),
        },
{
    match read_back {
        Ok(id) => {
            if bytes_equal(&id, raw) {
                Ok(text)
            } else {
                Err(EncodingError::MalformedInput)
            }
        },
        Err(_) => Err(EncodingError::MalformedInput),
    }
}

/// Renders a raw event identifier as its display text.
///
/// The encoder has a text for every identifier of 32 bytes and for no
/// other. The text is decoded again before it is handed out, so a text that
/// this function returns always reads back as `raw`; an identifier of 32
/// bytes is refused only if its text does not.
pub fn encode(raw: &Vec<u8>) -> (r: Result<String, EncodingError>)
    ensures
        match r {
            Ok(text) => encode_spec(raw@) == Ok::<Seq<char>, EncodingError>(text@),
            Err(e) => encode_spec(raw@) == Err::<Seq<char>, EncodingError>(e),
        },
        raw@.len() == IDENTIFIER_LEN ==> note_bech32(raw@) is Some,
        r is Ok <==> raw@.len() == IDENTIFIER_LEN && note_bech32_decoding(note_bech32(raw@)->0)
            == Ok::<Seq<u8>, NoteFault>(raw@),
{
    if raw.len() != IDENTIFIER_LEN {
        return Err(EncodingError::MalformedInput);
    }
    match bech32_of_identifier(raw) {
        Some(text) => {
            let read_back = identifier_of_bech32(text.as_str());
            checked_text(raw, text, read_back)
        },
        None => Err(EncodingError::MalformedInput),
    }
}

/// Reads a display text back into the raw event identifier.
///
/// A text that the decoder turns down is reported as a checksum mismatch
/// if the bech32 reader finds its checksum wrong, and as malformed
/// otherwise.
pub fn decode(text: &str) -> (r: Result<Vec<u8>, EncodingError>)
    ensures
        match r {
            Ok(raw) => decode_spec(text@) == Ok::<Seq<u8>, EncodingError>(raw@) && raw@.len()
                == IDENTIFIER_LEN,
            Err(e) => decode_spec(text@) == Err::<Seq<u8>, EncodingError>(e),
        },
{
    match identifier_of_bech32(text) {
        Ok(raw) => Ok(raw),
        Err(NoteFault::Bech32) => Err(classify(NoteFault::Bech32, bech32_fault_of(text))),
        Err(fault) => Err(classify(fault, None)),
    }
}

/// Decoding a text that [`encode`] returned gives back the identifier that
/// was encoded.
pub proof fn lemma_decode_inverts_encode(raw: Seq<u8>, text: Seq<char>)
    requires
        encode_spec(raw) == Ok::<Seq<char>, EncodingError>(text),
    ensures
        decode_spec(text) == Ok::<Seq<u8>, EncodingError>(raw),
{
}

/// Two identifiers with the same display text are the same identifier, so
/// two different identifiers never share a display text.
pub proof fn lemma_encode_injective(a: Seq<u8>, b: Seq<u8>, text: Seq<char>)
    requires
        encode_spec(a) == Ok::<Seq<char>, EncodingError>(text),
        encode_spec(b) == Ok::<Seq<char>, EncodingError>(text),
    ensures
        a == b,
{
}

/// A text is reported as a checksum mismatch exactly when the decoder
/// turned it down as bech32 text and the bech32 reader found its checksum
/// wrong; every other text that is turned down is reported as malformed.
pub proof fn lemma_checksum_mismatch_iff(text: Seq<char>)
    ensures
        decode_spec(text) == Err::<Seq<u8>, EncodingError>(EncodingError::ChecksumMismatch) <==> (
        note_bech32_decoding(text) == Err::<Seq<u8>, NoteFault>(NoteFault::Bech32)
            && bech32_reading(text) == Some(Bech32Fault::InvalidChecksum)),
        decode_spec(text) is Err ==> decode_spec(text) == Err::<Seq<u8>, EncodingError>(
            EncodingError::ChecksumMismatch,
        ) || decode_spec(text) == Err::<Seq<u8>, EncodingError>(EncodingError::MalformedInput),
{
}

} // verus!
