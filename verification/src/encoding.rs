//! Named text encodings of byte strings: hex, base64, base58, and the
//! block-wise base58 of Monero, which is only decoded.

use crate::error::{outcome_of, Failure, HarnessError};
use crate::hexadecimal::{hex_bytes, hex_text, is_hex_text, lemma_hex_round_trip};
use crate::trusted::{
    base58_bytes, base58_decode, base58_encode, base58_monero_bytes, base58_monero_decode,
    base58_text, base64_bytes, base64_decode, base64_encode, base64_text, hex_decode, hex_encode,
};
use vstd::prelude::*;

verus! {

/// A textual encoding of bytes that the harness knows by name.
#[derive(Clone, Copy, Debug, PartialEq, Eq, Structural)]
pub enum EncodingKind {
    /// `hex`: two digits for each byte.
    Hex,
    /// `base64`: the standard alphabet, with padding.
    Base64,
    /// `base58`: the alphabet of Bitcoin, without check digits.
    Base58,
    /// `base58_monero`: base58 in blocks of fixed sizes; it is only decoded.
    Base58Monero,
}

/// The encoding that a name stands for, if any.
pub open spec fn kind_of_name(name: Seq<char>) -> Option<EncodingKind> {
    if name == "hex"@ {
        Some(EncodingKind::Hex)
    } else if name == "base64"@ {
        Some(EncodingKind::Base64)
    } else if name == "base58"@ {
        Some(EncodingKind::Base58)
    } else if name == "base58_monero"@ {
        Some(EncodingKind::Base58Monero)
    } else {
        None
    }
}

/// A character of the base58 alphabet: a digit but `0`, or a letter but `I`,
/// `O` and `l`.
pub open spec fn is_base58_char(c: char) -> bool {
    ||| '1' <= c <= '9'
    ||| 'A' <= c <= 'Z' && c != 'I' && c != 'O'
    ||| 'a' <= c <= 'z' && c != 'l'
}

/// Text made of characters of the base58 alphabet only.
pub open spec fn is_base58_text(text: Seq<char>) -> bool {
    forall|i: int| 0 <= i < text.len() ==> is_base58_char(#[trigger] text[i])
}

/// A character that base64 text is made of: a letter, a digit, `+`, `/`, or
/// the padding `=`.
pub open spec fn is_base64_char(c: char) -> bool {
    ||| 'A' <= c <= 'Z'
    ||| 'a' <= c <= 'z'
    ||| '0' <= c <= '9'
    ||| c == '+'
    ||| c == '/'
    ||| c == '='
}

/// Text in blocks as Monero's base58 has them: characters of the base58
/// alphabet, in blocks of eleven and a last block that may be shorter, but
/// not of one, four or eight characters.
pub open spec fn is_monero_shaped(text: Seq<char>) -> bool {
    let rest = text.len() % 11;
    is_base58_text(text) && rest != 1 && rest != 4 && rest != 8
}

/// What text has to look like to stand for bytes under `kind`. For hex and
/// base58 text of this shape always does; for base64 and Monero's base58 more
/// is asked of it.
pub open spec fn is_shaped(text: Seq<char>, kind: EncodingKind) -> bool {
    match kind {
        EncodingKind::Hex => is_hex_text(text),
        EncodingKind::Base64 => forall|i: int|
            0 <= i < text.len() ==> is_base64_char(#[trigger] text[i]),
        EncodingKind::Base58 => is_base58_text(text),
        EncodingKind::Base58Monero => is_monero_shaped(text),
    }
}

/// The bytes that `text` stands for under `kind`; `None` where the text is
/// malformed.
pub open spec fn decoded(text: Seq<char>, kind: EncodingKind) -> Option<Seq<u8>> {
    match kind {
        EncodingKind::Hex => if is_hex_text(text) {
            Some(hex_bytes(text))
        } else {
            None
        },
        EncodingKind::Base64 => base64_bytes(text),
        EncodingKind::Base58 => if is_base58_text(text) {
            Some(base58_bytes(text))
        } else {
            None
        },
        EncodingKind::Base58Monero => base58_monero_bytes(text),
    }
}

/// The text of `bytes` under `kind`; `None` for the one kind that is only
/// decoded.
pub open spec fn encoded(bytes: Seq<u8>, kind: EncodingKind) -> Option<Seq<char>> {
    match kind {
        EncodingKind::Hex => Some(hex_text(bytes)),
        EncodingKind::Base64 => Some(base64_text(bytes)),
        EncodingKind::Base58 => Some(base58_text(bytes)),
        EncodingKind::Base58Monero => None,
    }
}

/// What decoding `text` under the encoding called `name` comes to.
pub open spec fn decode_outcome(text: Seq<char>, name: Seq<char>) -> Result<Seq<u8>, Failure> {
    match kind_of_name(name) {
        None => Err(Failure::UnsupportedEncoding(name)),
        Some(kind) => match decoded(text, kind) {
            Some(bytes) => Ok(bytes),
            None => Err(Failure::MalformedPayload(kind)),
        },
    }
}

/// What encoding `bytes` under the encoding called `name` comes to.
pub open spec fn encode_outcome(bytes: Seq<u8>, name: Seq<char>) -> Result<Seq<char>, Failure> {
    match kind_of_name(name) {
        None => Err(Failure::UnsupportedEncoding(name)),
        Some(kind) => match encoded(bytes, kind) {
            Some(text) => Ok(text),
            None => Err(Failure::UnsupportedEncoding(name)),
        },
    }
}

impl EncodingKind {
    /// The literal name of this encoding.
    pub open spec fn name_text(self) -> Seq<char> {
        match self {
            EncodingKind::Hex => "hex"@,
            EncodingKind::Base64 => "base64"@,
            EncodingKind::Base58 => "base58"@,
            EncodingKind::Base58Monero => "base58_monero"@,
        }
    }

    /// The literal name of this encoding, by which it is found again.
    pub fn name(&self) -> (name: &'static str)
        ensures
            name@ == self.name_text(),
            kind_of_name(name@) == Some(*self),
    {
        proof {
            lemma_kind_of_own_name(*self);
        }
        match self {
            EncodingKind::Hex => "hex",
            EncodingKind::Base64 => "base64",
            EncodingKind::Base58 => "base58",
            EncodingKind::Base58Monero => "base58_monero",
        }
    }

    /// Looks an encoding up by its literal name.
    pub fn from_name(name: &str) -> (kind: Option<EncodingKind>)
        ensures
            kind == kind_of_name(name@),
    {
        let owned = name.to_owned();
        if owned == "hex".to_owned() {
            Some(EncodingKind::Hex)
        } else if owned == "base64".to_owned() {
            Some(EncodingKind::Base64)
        } else if owned == "base58".to_owned() {
            Some(EncodingKind::Base58)
        } else if owned == "base58_monero".to_owned() {
            Some(EncodingKind::Base58Monero)
        } else {
            None
        }
    }

    /// Decodes `text`. Malformed text is reported under this encoding, with
    /// the decoder's description of what is wrong; text that is not of the
    /// encoding's shape is always malformed.
    pub fn decode(self, text: &str) -> (res: Result<Vec<u8>, HarnessError>)
        ensures
            outcome_of(res) == match decoded(text@, self) {
                Some(bytes) => Ok::<Seq<u8>, Failure>(bytes),
                None => Err(Failure::MalformedPayload(self)),
            },
            res is Ok ==> is_shaped(text@, self),
    {
        match self {
            EncodingKind::Hex => match hex_decode(text) {
                Ok(bytes) => Ok(bytes),
                Err(e) => Err(HarnessError::MalformedPayload(self, e.to_string())),
            },
            EncodingKind::Base64 => match base64_decode(text) {
                Ok(bytes) => Ok(bytes),
                Err(e) => Err(HarnessError::MalformedPayload(self, e.to_string())),
            },
            EncodingKind::Base58 => match base58_decode(text) {
                Ok(bytes) => Ok(bytes),
                Err(e) => Err(HarnessError::MalformedPayload(self, e.to_string())),
            },
            EncodingKind::Base58Monero => match base58_monero_decode(text) {
                Ok(bytes) => Ok(bytes),
                Err(e) => Err(HarnessError::MalformedPayload(self, e.to_string())),
            },
        }
    }

    /// Encodes `bytes`, where this encoding has an encoder. The text decodes
    /// to `bytes` again.
    pub fn encode(self, bytes: &[u8]) -> (res: Option<String>)
        ensures
            match res {
                Some(text) => encoded(bytes@, self) == Some(text@) && decoded(text@, self) == Some(
                    bytes@,
                ),
                None => encoded(bytes@, self) is None,
            },
    {
        match self {
            EncodingKind::Hex => {
                proof {
                    lemma_hex_round_trip(bytes@);
                }
                Some(hex_encode(bytes))
            },
            EncodingKind::Base64 => Some(base64_encode(bytes)),
            EncodingKind::Base58 => Some(base58_encode(bytes)),
            EncodingKind::Base58Monero => None,
        }
    }
}

/// Each encoding is found by its own name.
pub proof fn lemma_kind_of_own_name(kind: EncodingKind)
    ensures
        kind_of_name(kind.name_text()) == Some(kind),
{
    reveal_strlit("hex");
    reveal_strlit("base64");
    reveal_strlit("base58");
    reveal_strlit("base58_monero");
    assert("hex"@.len() == 3 && "base64"@.len() == 6);
    assert("base58"@.len() == 6 && "base58_monero"@.len() == 13);
    assert("base64"@[4] != "base58"@[4]);
}

/// A name that stands for no encoding is unsupported on both sides, whatever
/// is to be decoded or encoded: it is never reported as a malformed payload.
pub proof fn lemma_unknown_name_is_unsupported(text: Seq<char>, bytes: Seq<u8>, name: Seq<char>)
    requires
        kind_of_name(name) is None,
    ensures
        decode_outcome(text, name) == Err::<Seq<u8>, Failure>(Failure::UnsupportedEncoding(name)),
        encode_outcome(bytes, name) == Err::<Seq<char>, Failure>(
            Failure::UnsupportedEncoding(name),
        ),
{
}

/// Round trip for hex: the hex text of any bytes decodes to the bytes.
pub proof fn lemma_hex_decodes_what_it_encodes(bytes: Seq<u8>)
    ensures
        encoded(bytes, EncodingKind::Hex) matches Some(text) && decoded(text, EncodingKind::Hex)
            == Some(bytes),
{
    lemma_hex_round_trip(bytes);
}

/// Decoding is a function of the text and the name: two results of
/// `decode_string` for the same text and name, under any encoding, that of
/// Monero included, hold the same bytes or fail alike.
pub proof fn lemma_decoding_is_deterministic(
    text: Seq<char>,
    name: Seq<char>,
    first: Result<Vec<u8>, HarnessError>,
    second: Result<Vec<u8>, HarnessError>,
)
    requires
        outcome_of(first) == decode_outcome(text, name),
        outcome_of(second) == decode_outcome(text, name),
    ensures
        first is Ok <==> second is Ok,
        first matches Ok(a) ==> second matches Ok(b) && a@ == b@,
        first matches Err(a) ==> second matches Err(b) && a@ == b@,
{
}

/// Decodes `s` under the encoding called `encoding`. An unknown name is
/// reported as such, whatever the text; malformed text under a known name.
pub fn decode_string(s: &str, encoding: &str) -> (res: Result<Vec<u8>, HarnessError>)
    ensures
        outcome_of(res) == decode_outcome(s@, encoding@),
        res is Ok ==> (kind_of_name(encoding@) matches Some(kind) && is_shaped(s@, kind)),
{
    match EncodingKind::from_name(encoding) {
        Some(kind) => kind.decode(s),
        None => Err(HarnessError::UnsupportedEncoding(encoding.to_owned())),
    }
}

/// Encodes `s` under the encoding called `encoding`. A name without an
/// encoder is reported as unsupported. The text decodes to `s` again under
/// the same name.
pub fn encode_to_string(s: &[u8], encoding: &str) -> (res: Result<String, HarnessError>)
    ensures
        outcome_of(res) == encode_outcome(s@, encoding@),
        res matches Ok(text) ==> decode_outcome(text@, encoding@) == Ok::<Seq<u8>, Failure>(s@),
{
    match EncodingKind::from_name(encoding) {
        Some(kind) => match kind.encode(s) {
            Some(text) => Ok(text),
            None => Err(HarnessError::UnsupportedEncoding(encoding.to_owned())),
        },
        None => Err(HarnessError::UnsupportedEncoding(encoding.to_owned())),
    }
}

} // verus!
