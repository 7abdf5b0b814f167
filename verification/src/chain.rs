//! The chains that the harness supports: a closed list, each entry with the
//! same three operations.

use crate::arguments::Arguments;
use crate::error::{outcome_of, HarnessError};
use crate::solana::{
    conclude_outcome, generate_outcome, parse_outcome, render_outcome, verdict_text,
    verify_outcome, SolanaLock,
};
use crate::unit::VerifiableUnit;
use vstd::prelude::*;

verus! {

/// A supported chain.
#[derive(Clone, Copy, Debug, PartialEq, Eq, Structural)]
pub enum BlockChain {
    Solana(SolanaLock),
}

/// The chain that a name stands for, if any.
pub open spec fn chain_of_name(name: Seq<char>) -> Option<BlockChain> {
    if name == "solana"@ {
        Some(BlockChain::Solana(SolanaLock {  }))
    } else {
        None
    }
}

impl BlockChain {
    /// Looks a chain up by its name.
    pub fn from_name(name: &str) -> (chain: Option<BlockChain>)
        ensures
            chain == chain_of_name(name@),
    {
        if name.to_owned() == "solana".to_owned() {
            Some(BlockChain::Solana(SolanaLock {  }))
        } else {
            None
        }
    }

    /// The name of the chain.
    pub fn name(&self) -> (name: &'static str)
        ensures
            chain_of_name(name@) == Some(*self),
    {
        match self {
            BlockChain::Solana(_) => "solana",
        }
    }

    /// The fingerprint of the account at the address, as hex.
    pub fn parse(&self, operate_matches: &Arguments) -> (res: Result<String, HarnessError>)
        ensures
            outcome_of(res) == parse_outcome(operate_matches@),
    {
        match self {
            BlockChain::Solana(lock) => lock.parse(operate_matches),
        }
    }

    /// The unit whose signing target the engine is to be asked for.
    pub fn generate(&self, operate_matches: &Arguments, cycle_budget: u64) -> (res: Result<
        VerifiableUnit,
        HarnessError,
    >)
        ensures
            outcome_of(res) == generate_outcome(operate_matches@, cycle_budget),
    {
        match self {
            BlockChain::Solana(lock) => lock.generate(operate_matches, cycle_budget),
        }
    }

    /// The signing target that the engine gave, in the encoding asked for.
    pub fn render_message(&self, operate_matches: &Arguments, message_to_sign: &[u8]) -> (res:
        Result<String, HarnessError>)
        ensures
            outcome_of(res) == render_outcome(operate_matches@, message_to_sign@),
    {
        match self {
            BlockChain::Solana(lock) => lock.render_message(operate_matches, message_to_sign),
        }
    }

    /// The unit, with the signature attached, that the engine is to
    /// evaluate.
    pub fn verify(&self, operate_matches: &Arguments, cycle_budget: u64) -> (res: Result<
        VerifiableUnit,
        HarnessError,
    >)
        ensures
            outcome_of(res) == verify_outcome(operate_matches@, cycle_budget),
    {
        match self {
            BlockChain::Solana(lock) => lock.verify(operate_matches, cycle_budget),
        }
    }

    /// The outcome of a verification, from what the engine reported.
    pub fn conclude(&self, verdict: Result<(), String>) -> (res: Result<String, HarnessError>)
        ensures
            outcome_of(res) == conclude_outcome(verdict_text(verdict)),
    {
        match self {
            BlockChain::Solana(lock) => lock.conclude(verdict),
        }
    }
}

} // verus!
