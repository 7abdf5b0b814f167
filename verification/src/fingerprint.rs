//! Account fingerprints: the first twenty bytes of the digest of what an
//! address decodes to.

use crate::encoding::{is_base58_char, is_base58_text};
use crate::error::{outcome_of, Failure, HarnessError};
use crate::hexadecimal::{hex_digits, hex_text, lemma_hex_text_shape};
use crate::trusted::{base58_bytes, base58_decode, blake2b_256, ckb_blake2b_256, hex_encode};
use vstd::prelude::*;

verus! {

/// The fingerprint of an account: exactly twenty bytes.
#[derive(Clone, Copy, Debug, PartialEq, Eq)]
pub struct Fingerprint {
    pub bytes: [u8; 20],
}

impl View for Fingerprint {
    type V = Seq<u8>;

    open spec fn view(&self) -> Seq<u8> {
        self.bytes@
    }
}

/// The fingerprint of decoded address bytes: the first twenty bytes of their
/// digest.
pub open spec fn fingerprint_of(data: Seq<u8>) -> Seq<u8> {
    Seq::new(20, |i: int| ckb_blake2b_256(data)[i])
}

/// What deriving a fingerprint from an address comes to. An address is
/// always read as base58, and is valid exactly when it is base58 text.
pub open spec fn derive_outcome(address: Seq<char>) -> Result<Seq<u8>, Failure> {
    if is_base58_text(address) {
        Ok(fingerprint_of(base58_bytes(address)))
    } else {
        Err(Failure::InvalidAddress)
    }
}

/// Copies the first twenty of the bytes.
fn first_twenty(bytes: &[u8]) -> (copy: [u8; 20])
    requires
        bytes@.len() >= 20,
    ensures
        copy@ == bytes@.subrange(0, 20),
{
    let mut copy = [0u8; 20];
    let mut i: usize = 0;
    while i < 20
        invariant
            i <= 20,
            bytes@.len() >= 20,
            forall|j: int| 0 <= j < i ==> copy@[j] == bytes@[j],
        decreases 20 - i,
    {
        copy[i] = bytes[i];
        i += 1;
    }
    assert(copy@ =~= bytes@.subrange(0, 20));
    copy
}

impl Fingerprint {
    /// The first twenty bytes of a digest.
    pub fn from_digest(digest: &[u8; 32]) -> (fingerprint: Fingerprint)
        ensures
            fingerprint@ == digest@.subrange(0, 20),
    {
        Fingerprint { bytes: first_twenty(digest.as_slice()) }
    }

    /// The fingerprint that `bytes` are, if they are twenty.
    pub fn from_slice(bytes: &[u8]) -> (fingerprint: Option<Fingerprint>)
        ensures
            fingerprint is Some <==> bytes@.len() == 20,
            fingerprint matches Some(f) ==> f@ == bytes@,
    {
        if bytes.len() == 20 {
            assert(bytes@.subrange(0, 20) =~= bytes@);
            Some(Fingerprint { bytes: first_twenty(bytes) })
        } else {
            None
        }
    }

    /// The twenty bytes, as the engine takes them.
    pub fn to_vec(&self) -> (bytes: Vec<u8>)
        ensures
            bytes@ == self@,
    {
        let mut bytes: Vec<u8> = Vec::new();
        let mut i: usize = 0;
        while i < 20
            invariant
                i <= 20,
                bytes@.len() == i,
                forall|j: int| 0 <= j < i ==> bytes@[j] == self.bytes@[j],
            decreases 20 - i,
        {
            bytes.push(self.bytes[i]);
            i += 1;
        }
        assert(bytes@ =~= self@);
        bytes
    }

    /// The fingerprint as forty lowercase hex digits.
    pub fn to_hex(&self) -> (text: String)
        ensures
            text@ == hex_text(self@),
            text@.len() == 40,
            forall|i: int| 0 <= i < 40 ==> hex_digits().contains(#[trigger] text@[i]),
    {
        proof {
            lemma_hex_text_shape(self@);
        }
        hex_encode(self.bytes.as_slice())
    }
}

/// Derives the fingerprint of the account at `address`: the address is
/// decoded as base58, the bytes are hashed, and the first twenty bytes of the
/// digest are kept.
pub fn get_pub_key_hash_from_address(address: &str) -> (res: Result<Fingerprint, HarnessError>)
    ensures
        outcome_of(res) == derive_outcome(address@),
{
    match base58_decode(address) {
        Ok(decoded) => {
            let digest = blake2b_256(decoded.as_slice());
            let fingerprint = Fingerprint::from_digest(&digest);
            assert(fingerprint@ =~= fingerprint_of(base58_bytes(address@)));
            Ok(fingerprint)
        },
        Err(_) => Err(HarnessError::InvalidAddress),
    }
}

/// Derivation is a function of the address: two results of
/// `get_pub_key_hash_from_address` for the same address hold the same
/// fingerprint or fail alike.
pub proof fn lemma_derivation_is_deterministic(
    address: Seq<char>,
    first: Result<Fingerprint, HarnessError>,
    second: Result<Fingerprint, HarnessError>,
)
    requires
        outcome_of(first) == derive_outcome(address),
        outcome_of(second) == derive_outcome(address),
    ensures
        first is Ok <==> second is Ok,
        first matches Ok(a) ==> second matches Ok(b) && a@ == b@,
        first matches Err(a) ==> second matches Err(b) && a@ == b@,
{
}

/// Every base58 address has a fingerprint, and it has exactly twenty bytes.
pub proof fn lemma_base58_address_has_fingerprint(address: Seq<char>)
    requires
        is_base58_text(address),
    ensures
        derive_outcome(address) matches Ok(fingerprint) && fingerprint.len() == 20,
{
}

/// An address that holds a character outside the base58 alphabet is invalid.
pub proof fn lemma_foreign_character_invalidates(address: Seq<char>, at: int)
    requires
        0 <= at < address.len(),
        !is_base58_char(address[at]),
    ensures
        derive_outcome(address) == Err::<Seq<u8>, Failure>(Failure::InvalidAddress),
{
}

} // verus!
