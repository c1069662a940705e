//! What the consensus contract needs to know of the chain's state machine:
//! that it has headers, blocks under construction, and an error type.

use vstd::prelude::*;

verus! {

/// The state machine that a consensus mechanism seals blocks for.
pub trait Machine {
    /// A block header. The chain store owns headers; the contract borrows them.
    type Header;

    /// A block under construction, owned by whoever assembles it.
    type LiveBlock;

    /// The failures of verification, sealing and block transformation.
    type Error;
}

} // verus!
