//! The fingerprint of the server certificate: its SHA-256 hash in
//! hexadecimal notation, as a browser wants it to trust a self-signed
//! certificate for WebTransport.

use crate::hex::{
    decode_hex_spec, hex_digits_of, hex_text, lemma_typed_hex_round_trip, parse_hex, to_hex,
};
use sha2::Digest;
use vstd::prelude::*;
use vstd::string::*;

verus! {

/// Bytes in a SHA-256 hash.
pub const HASH_LENGTH: usize = 32;

/// The SHA-256 hash of `data`.
pub uninterp spec fn sha256(data: Seq<u8>) -> Seq<u8>;

/// Hashes `data`: `sha2::Sha256::digest`, the one-shot form of the hash.
/// The hash depends on the data alone and is 32 bytes long; which bytes
/// they are is left to `sha2`, and `sha256` names them.
#[verifier::external_body]
pub(crate) fn sha256_digest(data: &[u8]) -> (hash: Vec<u8>)
    ensures
        hash@ == sha256(data@),
        hash@.len() == HASH_LENGTH,
{
    sha2::Sha256::digest(data).to_vec()
}

/// The fingerprint of a certificate in DER form: its SHA-256 hash in
/// hexadecimal notation.
pub fn certificate_fingerprint(certificate: &[u8]) -> (fingerprint: String)
    ensures
        fingerprint@ == hex_text(sha256(certificate@)),
        fingerprint@.len() == 2 * HASH_LENGTH,
{
    let hash = sha256_digest(certificate);
    to_hex(hash.as_slice())
}

/// Why a typed certificate hash was turned down.
#[derive(Clone, Copy, Debug, PartialEq, Eq, Structural)]
pub enum HashInputError {
    /// The text is no hexadecimal notation of bytes.
    InvalidHex,
    /// The text denotes bytes, but not as many as a SHA-256 hash has.
    WrongLength,
}

/// What a typed certificate hash stands for: no hash where nothing was
/// typed; the hash where the text denotes exactly 32 bytes; an error otherwise.
pub open spec fn certificate_hash_spec(input: Seq<char>) -> Result<
    Option<Seq<u8>>,
    HashInputError,
> {
    if input.len() == 0 {
        Ok(None)
    } else {
        match decode_hex_spec(hex_digits_of(input)) {
            Some(bytes) => if bytes.len() == HASH_LENGTH {
                Ok(Some(bytes))
            } else {
                Err(HashInputError::WrongLength)
            },
            None => Err(HashInputError::InvalidHex),
        }
    }
}

/// The hash in `read`, seen as bytes.
pub open spec fn hash_view(read: Result<Option<Vec<u8>>, HashInputError>) -> Result<
    Option<Seq<u8>>,
    HashInputError,
> {
    match read {
        Ok(Some(bytes)) => Ok(Some(bytes@)),
        Ok(None) => Ok(None),
        Err(error) => Err(error),
    }
}

/// Reads the certificate hash that a user typed, to pin the server's
/// certificate by it.
pub fn certificate_hash(input: &str) -> (read: Result<Option<Vec<u8>>, HashInputError>)
    ensures
        hash_view(read) == certificate_hash_spec(input@),
{
    if input.is_empty() {
        return Ok(None);
    }
    match parse_hex(input) {
        Some(bytes) => {
            if bytes.len() == HASH_LENGTH {
                Ok(Some(bytes))
            } else {
                Err(HashInputError::WrongLength)
            }
        },
        None => Err(HashInputError::InvalidHex),
    }
}

/// A hash written in hexadecimal notation, as `certificate_fingerprint`
/// writes it, is taken for that hash when it is typed in.
pub proof fn lemma_written_hash_is_taken(hash: Seq<u8>)
    requires
        hash.len() == HASH_LENGTH,
    ensures
        certificate_hash_spec(hex_text(hash)) == Ok::<Option<Seq<u8>>, HashInputError>(Some(hash)),
{
    lemma_typed_hex_round_trip(hash);
}

} // verus!
