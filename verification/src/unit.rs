//! What the engine is asked to evaluate: an account, the algorithm of its
//! signatures, a cycle budget and, for verification, a signature.

use crate::fingerprint::Fingerprint;
use vstd::prelude::*;

verus! {

/// The signature algorithm that a unit is evaluated under.
#[derive(Clone, Copy, Debug, PartialEq, Eq, Structural)]
pub enum AlgorithmType {
    Solana,
}

/// A synthetic unit for the engine. It is built once for an invocation, and
/// changes only when the signature is attached.
#[derive(Clone, Debug, PartialEq, Eq)]
pub struct VerifiableUnit {
    fingerprint: Fingerprint,
    algorithm: AlgorithmType,
    cycle_budget: u64,
    signature: Option<Vec<u8>>,
}

/// What a unit holds.
pub struct UnitView {
    pub fingerprint: Seq<u8>,
    pub algorithm: AlgorithmType,
    pub cycle_budget: u64,
    pub signature: Option<Seq<u8>>,
}

impl View for VerifiableUnit {
    type V = UnitView;

    closed spec fn view(&self) -> UnitView {
        UnitView {
            fingerprint: self.fingerprint@,
            algorithm: self.algorithm,
            cycle_budget: self.cycle_budget,
            signature: match self.signature {
                Some(signature) => Some(signature@),
                None => None,
            },
        }
    }
}

impl VerifiableUnit {
    /// A unit for the account, without a signature.
    pub fn new(fingerprint: Fingerprint, algorithm: AlgorithmType, cycle_budget: u64) -> (unit:
        VerifiableUnit)
        ensures
            unit@ == (UnitView {
                fingerprint: fingerprint@,
                algorithm,
                cycle_budget,
                signature: None,
            }),
    {
        VerifiableUnit { fingerprint, algorithm, cycle_budget, signature: None }
    }

    /// Attaches the signature, in place of any that was attached before.
    /// Nothing else changes.
    pub fn attach_signature(&mut self, signature: Vec<u8>)
        ensures
            final(self)@ == (UnitView { signature: Some(signature@), ..old(self)@ }),
    {
        self.signature = Some(signature);
    }

    /// The account that the unit is about.
    pub fn fingerprint(&self) -> (fingerprint: Fingerprint)
        ensures
            fingerprint@ == self@.fingerprint,
    {
        self.fingerprint
    }

    /// The algorithm tag.
    pub fn algorithm(&self) -> (algorithm: AlgorithmType)
        ensures
            algorithm == self@.algorithm,
    {
        self.algorithm
    }

    /// The most cycles that the engine may spend on the unit.
    pub fn cycle_budget(&self) -> (cycle_budget: u64)
        ensures
            cycle_budget == self@.cycle_budget,
    {
        self.cycle_budget
    }

    /// The signature, if one is attached.
    pub fn signature(&self) -> (signature: Option<&Vec<u8>>)
        ensures
            match signature {
                Some(bytes) => self@.signature == Some(bytes@),
                None => self@.signature is None,
            },
    {
        self.signature.as_ref()
    }
}

} // verus!
