//! The values that the command line gave to an operation.

use vstd::prelude::*;

verus! {

/// The named values of one invocation, each present or absent.
#[derive(Clone, Debug, PartialEq, Eq)]
pub struct Arguments {
    /// `address`: the base58 address of the account.
    pub address: Option<String>,
    /// `pubkeyhash`: the fingerprint itself, as hex.
    pub pubkeyhash: Option<String>,
    /// `encoding`: the name of the encoding to print in.
    pub encoding: Option<String>,
    /// `signature`: the signature, as base58.
    pub signature: Option<String>,
    /// `message`: the signed message, as base64.
    pub message: Option<String>,
}

/// The texts of the arguments.
pub struct ArgumentsView {
    pub address: Option<Seq<char>>,
    pub pubkeyhash: Option<Seq<char>>,
    pub encoding: Option<Seq<char>>,
    pub signature: Option<Seq<char>>,
    pub message: Option<Seq<char>>,
}

/// The text of a value, if it is present.
pub open spec fn text_of(value: Option<String>) -> Option<Seq<char>> {
    match value {
        Some(text) => Some(text@),
        None => None,
    }
}

impl View for Arguments {
    type V = ArgumentsView;

    open spec fn view(&self) -> ArgumentsView {
        ArgumentsView {
            address: text_of(self.address),
            pubkeyhash: text_of(self.pubkeyhash),
            encoding: text_of(self.encoding),
            signature: text_of(self.signature),
            message: text_of(self.message),
        }
    }
}

impl Arguments {
    /// No value at all.
    pub fn new() -> (arguments: Arguments)
        ensures
            arguments@ == (ArgumentsView {
                address: None,
                pubkeyhash: None,
                encoding: None,
                signature: None,
                message: None,
            }),
    {
        Arguments { address: None, pubkeyhash: None, encoding: None, signature: None, message: None }
    }
}

} // verus!
