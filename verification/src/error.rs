//! The failures that the consensus contract itself reports.

use vstd::prelude::*;
use vstd::string::StringExecFns;
use crate::codec::DecodeError;
use crate::primitives::{Address, H256};

verus! {

/// Voting errors.
#[derive(Debug, Clone, Copy, PartialEq, Eq)]
pub enum EngineError {
    /// Signature or author field does not belong to an authority.
    NotAuthorized(Address),
}

/// A failure of the consensus layer.
#[derive(Debug, Clone, Copy, PartialEq, Eq)]
pub enum Error {
    /// A voting failure.
    Engine(EngineError),
    /// Stored bytes could not be read.
    Decoder(DecodeError),
    /// The verifier of a new epoch was asked for before the block with this
    /// hash was shown to be final under the previous epoch.
    NotFinalized(H256),
    /// The engine has no signing identity.
    Unsupported,
}

impl EngineError {
    /// The text of the message.
    pub open spec fn text(self) -> Seq<char> {
        match self {
            EngineError::NotAuthorized(address) => "Engine error (Signer "@ + address.text()
                + " is not authorized.)"@,
        }
    }

    /// The message for a human reader.
    pub fn message(&self) -> (s: String)
        ensures
            s@ == self.text(),
    {
        match self {
            EngineError::NotAuthorized(address) => {
                let mut s = String::from_str("Engine error (Signer ");
                let hex = address.to_hex();
                s.append(hex.as_str());
                s.append(" is not authorized.)");
                s
            },
        }
    }
}

} // verus!
