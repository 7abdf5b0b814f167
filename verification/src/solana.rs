//! The Solana account scheme: base58 addresses, fingerprints of twenty
//! bytes, signatures in base58 over messages in base64.
//!
//! The engine itself is not part of this library. `generate` and `verify`
//! build the unit that the caller submits to it, and `render_message` and
//! `conclude` turn what the engine answered into the outcome of the
//! operation.

use crate::arguments::{Arguments, ArgumentsView};
use crate::chain::BlockChain;
use crate::encoding::{decoded, encode_outcome, encode_to_string, EncodingKind};
use crate::error::{outcome_of, Failure, HarnessError};
use crate::fingerprint::{derive_outcome, get_pub_key_hash_from_address, Fingerprint};
use crate::hexadecimal::{hex_bytes, hex_digits, hex_text, is_hex_text};
use crate::unit::{AlgorithmType, UnitView, VerifiableUnit};
use vstd::prelude::*;
use vstd::string::*;

verus! {

/// The Solana scheme as an entry of the list of chains.
#[derive(Clone, Copy, Debug, PartialEq, Eq, Structural)]
pub struct SolanaLockArgs {}

/// The operations of the Solana scheme.
#[derive(Clone, Copy, Debug, PartialEq, Eq, Structural)]
pub struct SolanaLock {}

/// The name of the encoding that a message is printed in when none is asked
/// for.
pub open spec fn default_encoding() -> Seq<char> {
    "base58"@
}

/// What is reported when the engine accepts a signature.
pub open spec fn success_text() -> Seq<char> {
    "Signature verification succeeded!"@
}

/// The outcome of `parse`: the fingerprint of the address, as hex.
pub open spec fn parse_outcome(arguments: ArgumentsView) -> Result<Seq<char>, Failure> {
    match arguments.address {
        None => Err(Failure::MissingArgument("address"@)),
        Some(address) => match derive_outcome(address) {
            Ok(fingerprint) => Ok(hex_text(fingerprint)),
            Err(failure) => Err(failure),
        },
    }
}

/// The fingerprint that the arguments name: the one given as hex, if one is
/// given, else that of the address.
pub open spec fn fingerprint_outcome(arguments: ArgumentsView) -> Result<Seq<u8>, Failure> {
    match arguments.pubkeyhash {
        Some(text) => if !is_hex_text(text) {
            Err(Failure::MalformedPayload(EncodingKind::Hex))
        } else if hex_bytes(text).len() != 20 {
            Err(Failure::InvalidAddress)
        } else {
            Ok(hex_bytes(text))
        },
        None => match arguments.address {
            Some(address) => derive_outcome(address),
            None => Err(Failure::MissingArgument("address"@)),
        },
    }
}

/// The outcome of `generate`: a unit for the fingerprint, without a
/// signature.
pub open spec fn generate_outcome(arguments: ArgumentsView, cycle_budget: u64) -> Result<
    UnitView,
    Failure,
> {
    match fingerprint_outcome(arguments) {
        Ok(fingerprint) => Ok(
            UnitView {
                fingerprint,
                algorithm: AlgorithmType::Solana,
                cycle_budget,
                signature: None,
            },
        ),
        Err(failure) => Err(failure),
    }
}

/// The outcome of `render_message`: the message in the encoding asked for,
/// or in the default one.
pub open spec fn render_outcome(arguments: ArgumentsView, message: Seq<u8>) -> Result<
    Seq<char>,
    Failure,
> {
    match arguments.encoding {
        Some(name) => encode_outcome(message, name),
        None => encode_outcome(message, default_encoding()),
    }
}

/// The bytes that the engine takes as signature: the decoded signature, the
/// decoded address and the decoded message, in this order.
pub open spec fn signature_outcome(
    signature: Seq<char>,
    address: Seq<char>,
    message: Seq<char>,
) -> Result<Seq<u8>, Failure> {
    match decoded(signature, EncodingKind::Base58) {
        None => Err(Failure::MalformedPayload(EncodingKind::Base58)),
        Some(signature_bytes) => match decoded(address, EncodingKind::Base58) {
            None => Err(Failure::MalformedPayload(EncodingKind::Base58)),
            Some(address_bytes) => match decoded(message, EncodingKind::Base64) {
                None => Err(Failure::MalformedPayload(EncodingKind::Base64)),
                Some(message_bytes) => Ok(signature_bytes + address_bytes + message_bytes),
            },
        },
    }
}

/// The outcome of `verify`: a unit for the fingerprint of the address, with
/// the assembled signature attached.
pub open spec fn verify_outcome(arguments: ArgumentsView, cycle_budget: u64) -> Result<
    UnitView,
    Failure,
> {
    match arguments.address {
        None => Err(Failure::MissingArgument("address"@)),
        Some(address) => match arguments.signature {
            None => Err(Failure::MissingArgument("signature"@)),
            Some(signature) => match arguments.message {
                None => Err(Failure::MissingArgument("message"@)),
                Some(message) => match derive_outcome(address) {
                    Err(failure) => Err(failure),
                    Ok(fingerprint) => match signature_outcome(signature, address, message) {
                        Err(failure) => Err(failure),
                        Ok(bytes) => Ok(
                            UnitView {
                                fingerprint,
                                algorithm: AlgorithmType::Solana,
                                cycle_budget,
                                signature: Some(bytes),
                            },
                        ),
                    },
                },
            },
        },
    }
}

/// The engine's report, with the text of its description.
pub open spec fn verdict_text(verdict: Result<(), String>) -> Result<(), Seq<char>> {
    match verdict {
        Ok(_) => Ok(()),
        Err(detail) => Err(detail@),
    }
}

/// The outcome of `conclude`: success if the engine reported no error, else
/// an engine failure with the engine's description.
pub open spec fn conclude_outcome(verdict: Result<(), Seq<char>>) -> Result<Seq<char>, Failure> {
    match verdict {
        Ok(_) => Ok(success_text()),
        Err(detail) => Err(Failure::EngineError(detail)),
    }
}

impl SolanaLockArgs {
    /// The name that the chain is chosen by.
    pub fn block_chain_name(&self) -> (name: &'static str)
        ensures
            name@ == "solana"@,
    {
        "solana"
    }

    /// The operations of the chain.
    pub fn get_block_chain(&self) -> (chain: BlockChain)
        ensures
            chain == BlockChain::Solana(SolanaLock {  }),
    {
        BlockChain::Solana(SolanaLock {  })
    }
}

impl SolanaLock {
    /// The fingerprint of the account at `address`, as forty lowercase hex
    /// digits.
    pub fn parse(&self, operate_matches: &Arguments) -> (res: Result<String, HarnessError>)
        ensures
            outcome_of(res) == parse_outcome(operate_matches@),
            res matches Ok(text) ==> text@.len() == 40 && forall|i: int|
                0 <= i < 40 ==> hex_digits().contains(#[trigger] text@[i]),
    {
        match &operate_matches.address {
            None => Err(HarnessError::MissingArgument(String::from_str("address"))),
            Some(address) => match get_pub_key_hash_from_address(address.as_str()) {
                Ok(fingerprint) => Ok(fingerprint.to_hex()),
                Err(e) => Err(e),
            },
        }
    }

    /// First half of generating a message to sign: the unit whose signing
    /// target the engine is to be asked for.
    pub fn generate(&self, operate_matches: &Arguments, cycle_budget: u64) -> (res: Result<
        VerifiableUnit,
        HarnessError,
    >)
        ensures
            outcome_of(res) == generate_outcome(operate_matches@, cycle_budget),
    {
        match get_pubkey_hash_by_args(operate_matches) {
            Ok(fingerprint) => Ok(
                VerifiableUnit::new(fingerprint, AlgorithmType::Solana, cycle_budget),
            ),
            Err(e) => Err(e),
        }
    }

    /// Second half of generating a message to sign: the signing target that
    /// the engine gave, in the encoding asked for, base58 if none is.
    pub fn render_message(&self, operate_matches: &Arguments, message_to_sign: &[u8]) -> (res:
        Result<String, HarnessError>)
        ensures
            outcome_of(res) == render_outcome(operate_matches@, message_to_sign@),
    {
        match &operate_matches.encoding {
            Some(name) => encode_to_string(message_to_sign, name.as_str()),
            None => encode_to_string(message_to_sign, "base58"),
        }
    }

    /// First half of verifying a signature: the unit, with the signature
    /// attached, that the engine is to evaluate under the unit's budget.
    pub fn verify(&self, operate_matches: &Arguments, cycle_budget: u64) -> (res: Result<
        VerifiableUnit,
        HarnessError,
    >)
        ensures
            outcome_of(res) == verify_outcome(operate_matches@, cycle_budget),
    {
        let address = match &operate_matches.address {
            Some(address) => address.as_str(),
            None => {
                return Err(HarnessError::MissingArgument(String::from_str("address")));
            },
        };
        let signature = match &operate_matches.signature {
            Some(signature) => signature.as_str(),
            None => {
                return Err(HarnessError::MissingArgument(String::from_str("signature")));
            },
        };
        let message = match &operate_matches.message {
            Some(message) => message.as_str(),
            None => {
                return Err(HarnessError::MissingArgument(String::from_str("message")));
            },
        };
        let fingerprint = match get_pub_key_hash_from_address(address) {
            Ok(fingerprint) => fingerprint,
            Err(e) => {
                return Err(e);
            },
        };
        let data = match assemble_signature(signature, address, message) {
            Ok(data) => data,
            Err(e) => {
                return Err(e);
            },
        };
        let mut unit = VerifiableUnit::new(fingerprint, AlgorithmType::Solana, cycle_budget);
        unit.attach_signature(data);
        Ok(unit)
    }

    /// Second half of verifying a signature: the outcome, from what the
    /// engine reported.
    pub fn conclude(&self, verdict: Result<(), String>) -> (res: Result<String, HarnessError>)
        ensures
            outcome_of(res) == conclude_outcome(verdict_text(verdict)),
    {
        match verdict {
            Ok(_) => Ok(String::from_str("Signature verification succeeded!")),
            Err(detail) => Err(HarnessError::EngineError(detail)),
        }
    }
}

/// Resolves the fingerprint that an operation is about. A fingerprint given
/// as hex takes precedence over an address.
pub fn get_pubkey_hash_by_args(sub_matches: &Arguments) -> (res: Result<Fingerprint, HarnessError>)
    ensures
        outcome_of(res) == fingerprint_outcome(sub_matches@),
{
    match &sub_matches.pubkeyhash {
        Some(text) => match EncodingKind::Hex.decode(text.as_str()) {
            Ok(bytes) => match Fingerprint::from_slice(bytes.as_slice()) {
                Some(fingerprint) => Ok(fingerprint),
                None => Err(HarnessError::InvalidAddress),
            },
            Err(e) => Err(e),
        },
        None => match &sub_matches.address {
            Some(address) => get_pub_key_hash_from_address(address.as_str()),
            None => Err(HarnessError::MissingArgument(String::from_str("address"))),
        },
    }
}

/// Assembles the bytes that the engine takes as signature: the signature
/// decoded from base58, then the address decoded from base58, then the
/// message decoded from base64.
pub fn assemble_signature(signature: &str, address: &str, message: &str) -> (res: Result<
    Vec<u8>,
    HarnessError,
>)
    ensures
        outcome_of(res) == signature_outcome(signature@, address@, message@),
{
    let mut data = match EncodingKind::Base58.decode(signature) {
        Ok(bytes) => bytes,
        Err(e) => {
            return Err(e);
        },
    };
    let mut address_bytes = match EncodingKind::Base58.decode(address) {
        Ok(bytes) => bytes,
        Err(e) => {
            return Err(e);
        },
    };
    let mut message_bytes = match EncodingKind::Base64.decode(message) {
        Ok(bytes) => bytes,
        Err(e) => {
            return Err(e);
        },
    };
    data.append(&mut address_bytes);
    data.append(&mut message_bytes);
    Ok(data)
}

/// Generation is a function of its inputs: two units of `generate` for the
/// same arguments and budget are the same, and carry no signature.
pub proof fn lemma_generation_is_deterministic(
    arguments: ArgumentsView,
    cycle_budget: u64,
    first: Result<VerifiableUnit, HarnessError>,
    second: Result<VerifiableUnit, HarnessError>,
)
    requires
        outcome_of(first) == generate_outcome(arguments, cycle_budget),
        outcome_of(second) == generate_outcome(arguments, cycle_budget),
    ensures
        first is Ok <==> second is Ok,
        first matches Ok(a) ==> second matches Ok(b) && a@ == b@ && a@.signature is None,
        first matches Err(a) ==> second matches Err(b) && a@ == b@,
{
}

/// Rendering is a function of its inputs: two texts of `render_message` for
/// the same arguments and the same message of the engine are the same.
pub proof fn lemma_rendering_is_deterministic(
    arguments: ArgumentsView,
    message: Seq<u8>,
    first: Result<String, HarnessError>,
    second: Result<String, HarnessError>,
)
    requires
        outcome_of(first) == render_outcome(arguments, message),
        outcome_of(second) == render_outcome(arguments, message),
    ensures
        first is Ok <==> second is Ok,
        first matches Ok(a) ==> second matches Ok(b) && a@ == b@,
        first matches Err(a) ==> second matches Err(b) && a@ == b@,
{
}

/// Every byte of every part reaches the engine in its place: parts of the
/// same lengths that are assembled to the same bytes are the same parts. So
/// a change to one byte of the decoded signature, address or message changes
/// what the engine is given.
pub proof fn lemma_assembly_keeps_every_byte(
    signature: Seq<u8>,
    address: Seq<u8>,
    message: Seq<u8>,
    other_signature: Seq<u8>,
    other_address: Seq<u8>,
    other_message: Seq<u8>,
)
    requires
        signature.len() == other_signature.len(),
        address.len() == other_address.len(),
        message.len() == other_message.len(),
        signature + address + message == other_signature + other_address + other_message,
    ensures
        signature == other_signature,
        address == other_address,
        message == other_message,
{
    let whole = signature + address + message;
    let other = other_signature + other_address + other_message;
    let s = signature.len() as int;
    let a = address.len() as int;
    assert forall|i: int| 0 <= i < signature.len() implies signature[i] == other_signature[i] by {
        assert(whole[i] == signature[i] && other[i] == other_signature[i]);
    }
    assert forall|i: int| 0 <= i < address.len() implies address[i] == other_address[i] by {
        assert(whole[s + i] == address[i] && other[s + i] == other_address[i]);
    }
    assert forall|i: int| 0 <= i < message.len() implies message[i] == other_message[i] by {
        assert(whole[s + a + i] == message[i] && other[s + a + i] == other_message[i]);
    }
    assert(signature =~= other_signature);
    assert(address =~= other_address);
    assert(message =~= other_message);
}

} // verus!
