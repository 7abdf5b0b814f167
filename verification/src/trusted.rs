//! Calls into the codec and digest crates, each with the contract that the
//! rest of the library relies on. Nothing in this file is proved: the
//! contracts restate what the crates' sources show.
//!
//! The encoders compute the length of their text in `usize`. A slice never
//! has more than `isize::MAX` bytes, so none of these computations
//! overflows.

use crate::encoding::{is_base58_text, is_shaped, EncodingKind};
use crate::hexadecimal::{hex_bytes, hex_text, is_hex_text};
use base64::Engine;
use vstd::prelude::*;

verus! {

/// The error of `hex::decode`.
#[verifier::external_type_specification]
#[verifier::external_body]
pub struct ExFromHexError(hex::FromHexError);

/// The error of decoding with a `base64` engine.
#[verifier::external_type_specification]
#[verifier::external_body]
pub struct ExBase64DecodeError(base64::DecodeError);

/// The error of decoding with `bs58`.
#[verifier::external_type_specification]
#[verifier::external_body]
pub struct ExBase58DecodeError(bs58::decode::Error);

/// The error of `base58_monero`.
#[verifier::external_type_specification]
#[verifier::external_body]
pub struct ExBase58MoneroError(base58_monero::Error);

/// The text that the standard `base64` engine, with padding, encodes bytes
/// to.
pub uninterp spec fn base64_text(bytes: Seq<u8>) -> Seq<char>;

/// The bytes that the standard `base64` engine, with padding, decodes text
/// to; `None` for text that it rejects.
pub uninterp spec fn base64_bytes(text: Seq<char>) -> Option<Seq<u8>>;

/// The text that `bs58` encodes bytes to in its default alphabet.
pub uninterp spec fn base58_text(bytes: Seq<u8>) -> Seq<char>;

/// The bytes that `bs58` decodes text of its default alphabet to.
pub uninterp spec fn base58_bytes(text: Seq<char>) -> Seq<u8>;

/// The bytes that `base58_monero` decodes text to; `None` for text that it
/// rejects.
pub uninterp spec fn base58_monero_bytes(text: Seq<char>) -> Option<Seq<u8>>;

/// The digest that `ckb_hash::blake2b_256` gives for the data.
pub uninterp spec fn ckb_blake2b_256(data: Seq<u8>) -> Seq<u8>;

/// `hex::encode`: two lowercase digits for each byte, high half first.
#[verifier::external_body]
pub(crate) fn hex_encode(data: &[u8]) -> (text: String)
    ensures
        text@ == hex_text(data@),
{
    hex::encode(data)
}

/// `hex::decode`: accepts exactly the texts of an even number of hex digits
/// of either case, and gives one byte for each pair of digits.
#[verifier::external_body]
pub(crate) fn hex_decode(text: &str) -> (res: Result<Vec<u8>, hex::FromHexError>)
    ensures
        res is Ok <==> is_hex_text(text@),
        res matches Ok(bytes) ==> bytes@ == hex_bytes(text@),
{
    hex::decode(text)
}

/// `encode` of `base64::engine::general_purpose::STANDARD`. The result is a
/// function of the data alone, and the same engine decodes it to the data
/// again: the round trip of the codec.
#[verifier::external_body]
pub(crate) fn base64_encode(data: &[u8]) -> (text: String)
    ensures
        text@ == base64_text(data@),
        base64_bytes(text@) == Some(data@),
{
    base64::engine::general_purpose::STANDARD.encode(data)
}

/// `decode` of `base64::engine::general_purpose::STANDARD`. Whether the text
/// is accepted, and the bytes if it is, are a function of the text alone.
/// Text with a character that is neither of the alphabet nor the padding is
/// rejected.
#[verifier::external_body]
pub(crate) fn base64_decode(text: &str) -> (res: Result<Vec<u8>, base64::DecodeError>)
    ensures
        match res {
            Ok(bytes) => base64_bytes(text@) == Some(bytes@),
            Err(_) => base64_bytes(text@) is None,
        },
        res is Ok ==> is_shaped(text@, EncodingKind::Base64),
{
    base64::engine::general_purpose::STANDARD.decode(text)
}

/// `bs58::encode(..).into_string()`. The result is a function of the data
/// alone, holds only characters of the alphabet, and `bs58` decodes it to
/// the data again: the round trip of the codec.
#[verifier::external_body]
pub(crate) fn base58_encode(data: &[u8]) -> (text: String)
    ensures
        text@ == base58_text(data@),
        is_base58_text(text@),
        base58_bytes(text@) == data@,
{
    bs58::encode(data).into_string()
}

/// `bs58::decode(..).into_vec()`: accepts exactly the texts whose characters
/// are all of the alphabet; the bytes are a function of the text alone.
#[verifier::external_body]
pub(crate) fn base58_decode(text: &str) -> (res: Result<Vec<u8>, bs58::decode::Error>)
    ensures
        res is Ok <==> is_base58_text(text@),
        res matches Ok(bytes) ==> bytes@ == base58_bytes(text@),
{
    bs58::decode(text).into_vec()
}

/// `base58_monero::decode`. Whether the text is accepted, and the bytes if it
/// is, are a function of the text alone. Text with a character outside the
/// alphabet, or whose last block has a length that no block of bytes encodes
/// to, is rejected.
#[verifier::external_body]
pub(crate) fn base58_monero_decode(text: &str) -> (res: Result<Vec<u8>, base58_monero::Error>)
    ensures
        match res {
            Ok(bytes) => base58_monero_bytes(text@) == Some(bytes@),
            Err(_) => base58_monero_bytes(text@) is None,
        },
        res is Ok ==> is_shaped(text@, EncodingKind::Base58Monero),
{
    base58_monero::decode(text)
}

/// `ckb_hash::blake2b_256`: the digest, of thirty-two bytes, is a function of
/// the data alone.
#[verifier::external_body]
pub(crate) fn blake2b_256(data: &[u8]) -> (digest: [u8; 32])
    ensures
        digest@ == ckb_blake2b_256(data@),
{
    ckb_hash::blake2b_256(data)
}

} // verus!
