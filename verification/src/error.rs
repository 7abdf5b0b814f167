//! The ways in which an operation of the harness can fail.

use crate::encoding::EncodingKind;
use vstd::prelude::*;
use vstd::string::*;

verus! {

/// Why an operation stopped. Every failure is final for the invocation.
#[derive(Clone, Debug, PartialEq, Eq)]
pub enum HarnessError {
    /// An encoding was asked for by a name that is not recognised; holds the
    /// name.
    UnsupportedEncoding(String),
    /// Text could not be decoded under the encoding; holds the encoding and
    /// the decoder's own description of the cause.
    MalformedPayload(EncodingKind, String),
    /// An address is not base58 text, or a fingerprint given in its place
    /// does not have twenty bytes.
    InvalidAddress,
    /// The engine rejected the signature or ran out of cycles; holds the
    /// engine's description.
    EngineError(String),
    /// A required argument is absent; holds its name.
    MissingArgument(String),
}

/// A failure without the wording that a decoder chose for it.
pub enum Failure {
    UnsupportedEncoding(Seq<char>),
    MalformedPayload(EncodingKind),
    InvalidAddress,
    EngineError(Seq<char>),
    MissingArgument(Seq<char>),
}

/// Whether a failure speaks of what the caller supplied or of the engine's
/// verdict.
#[derive(Clone, Copy, Debug, PartialEq, Eq, Structural)]
pub enum ErrorClass {
    Input,
    Engine,
}

impl View for HarnessError {
    type V = Failure;

    open spec fn view(&self) -> Failure {
        match self {
            HarnessError::UnsupportedEncoding(name) => Failure::UnsupportedEncoding(name@),
            HarnessError::MalformedPayload(encoding, _) => Failure::MalformedPayload(*encoding),
            HarnessError::InvalidAddress => Failure::InvalidAddress,
            HarnessError::EngineError(detail) => Failure::EngineError(detail@),
            HarnessError::MissingArgument(name) => Failure::MissingArgument(name@),
        }
    }
}

/// What a result comes to: the view of its value, or of its failure.
pub open spec fn outcome_of<T: View>(res: Result<T, HarnessError>) -> Result<T::V, Failure> {
    match res {
        Ok(value) => Ok(value@),
        Err(e) => Err(e@),
    }
}

/// How the message of a failure of the given class begins.
pub open spec fn class_prefix(class: ErrorClass) -> Seq<char> {
    match class {
        ErrorClass::Input => "Invalid input: "@,
        ErrorClass::Engine => "Verification failed: "@,
    }
}

impl HarnessError {
    /// The class of this failure: only an engine failure is of class
    /// `Engine`.
    pub open spec fn spec_class(&self) -> ErrorClass {
        if self is EngineError {
            ErrorClass::Engine
        } else {
            ErrorClass::Input
        }
    }

    /// What follows the class prefix in the message.
    pub open spec fn cause_text(&self) -> Seq<char> {
        match self {
            HarnessError::UnsupportedEncoding(name) => "Unknown encoding "@ + name@,
            HarnessError::MalformedPayload(encoding, detail) => "malformed "@
                + encoding.name_text() + " payload: "@ + detail@,
            HarnessError::InvalidAddress => "invalid address"@,
            HarnessError::EngineError(detail) => detail@,
            HarnessError::MissingArgument(name) => "missing argument "@ + name@,
        }
    }

    /// The message: the prefix of the class, then the cause.
    pub open spec fn message_text(&self) -> Seq<char> {
        class_prefix(self.spec_class()) + self.cause_text()
    }

    /// The class of this failure.
    #[verifier::when_used_as_spec(spec_class)]
    pub fn class(&self) -> (class: ErrorClass)
        ensures
            class == self.spec_class(),
    {
        match self {
            HarnessError::EngineError(_) => ErrorClass::Engine,
            _ => ErrorClass::Input,
        }
    }

    /// Renders the failure for the user.
    pub fn message(&self) -> (text: String)
        ensures
            text@ == self.message_text(),
    {
        let text = match self {
            HarnessError::UnsupportedEncoding(name) => String::from_str("Invalid input: ").concat(
                "Unknown encoding ",
            ).concat(name.as_str()),
            HarnessError::MalformedPayload(encoding, detail) => String::from_str(
                "Invalid input: ",
            ).concat("malformed ").concat(encoding.name()).concat(" payload: ").concat(
                detail.as_str(),
            ),
            HarnessError::InvalidAddress => String::from_str("Invalid input: ").concat(
                "invalid address",
            ),
            HarnessError::EngineError(detail) => String::from_str("Verification failed: ").concat(
                detail.as_str(),
            ),
            HarnessError::MissingArgument(name) => String::from_str("Invalid input: ").concat(
                "missing argument ",
            ).concat(name.as_str()),
        };
        assert(text@ =~= self.message_text());
        text
    }
}

/// Messages tell the class: a message begins with the prefix of its class,
/// and the messages of an engine failure and of any other failure differ in
/// their first character.
pub proof fn lemma_message_tells_class(a: HarnessError, b: HarnessError)
    ensures
        class_prefix(a.spec_class()).is_prefix_of(a.message_text()),
        a.spec_class() != b.spec_class() ==> a.message_text()[0] != b.message_text()[0],
{
    reveal_strlit("Invalid input: ");
    reveal_strlit("Verification failed: ");
}

} // verus!
