//! The failures of a fuzz session, tagged by the stage that they belong to.

use vstd::prelude::*;
use crate::abi::EncodeError;

verus! {

/// The stage at which something failed.
#[derive(Debug, Clone, Copy, PartialEq, Eq, Structural)]
pub enum ErrorKind {
    /// The session cannot start: no compiler, no node, no account.
    Setup,
    /// The contract did not compile.
    Compilation,
    /// The contract was not deployed.
    Deployment,
    /// The node answered a request with an error.
    Rpc,
    /// A request got no usable answer.
    Transport,
    /// An argument has no encoding.
    Encoding,
}

/// A failure: its stage, the node's error code where the node gave one, and
/// a message for the user.
#[derive(Debug, PartialEq)]
pub struct FuzzError {
    pub kind: ErrorKind,
    pub code: Option<i32>,
    pub message: String,
}

/// The mathematical view of a [`FuzzError`].
pub struct FuzzErrorModel {
    pub kind: ErrorKind,
    pub code: Option<i32>,
    pub message: Seq<char>,
}

impl View for FuzzError {
    type V = FuzzErrorModel;

    open spec fn view(&self) -> FuzzErrorModel {
        FuzzErrorModel { kind: self.kind, code: self.code, message: self.message@ }
    }
}

impl Clone for FuzzError {
    fn clone(&self) -> (r: Self)
        ensures
            r@ == self@,
    {
        FuzzError { kind: self.kind, code: self.code, message: self.message.clone() }
    }
}

/// The failure of kind `kind` with the message `message` and no code.
pub open spec fn failure(kind: ErrorKind, message: Seq<char>) -> FuzzErrorModel {
    FuzzErrorModel { kind, code: None, message }
}

/// The message for an argument that has no encoding.
pub open spec fn encode_error_text(e: EncodeError) -> Seq<char> {
    match e {
        EncodeError::InvalidAddress => "Invalid address: not hexadecimal"@,
        EncodeError::InvalidAddressLength => "Invalid address length"@,
        EncodeError::InvalidInteger => "Invalid 256-bit integer"@,
        EncodeError::UnsupportedType => "Unsupported type for ABI encoding"@,
    }
}

impl FuzzError {
    /// The failure of kind `kind` with the message `message` and no code.
    pub fn new(kind: ErrorKind, message: String) -> (r: Self)
        ensures
            r@ == failure(kind, message@),
    {
        FuzzError { kind, code: None, message }
    }

    /// The failure that an argument without encoding gives.
    pub fn encoding(e: EncodeError) -> (r: Self)
        ensures
            r@ == failure(ErrorKind::Encoding, encode_error_text(e)),
    {
        let text = match e {
            EncodeError::InvalidAddress => "Invalid address: not hexadecimal",
            EncodeError::InvalidAddressLength => "Invalid address length",
            EncodeError::InvalidInteger => "Invalid 256-bit integer",
            EncodeError::UnsupportedType => "Unsupported type for ABI encoding",
        };
        FuzzError { kind: ErrorKind::Encoding, code: None, message: String::from_str(text) }
    }

    /// The message for the user.
    pub fn to_string(&self) -> (r: String)
        ensures
            r@ == self@.message,
    {
        self.message.clone()
    }
}

} // verus!
