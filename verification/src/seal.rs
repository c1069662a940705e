//! What sealing a block produced, and what the node may do with it.

use vstd::prelude::*;

verus! {

/// Seal type. The payload holds one opaque byte string for each seal field
/// that the engine declares.
#[derive(Debug, PartialEq, Eq)]
pub enum Seal {
    /// Proposal seal; should be broadcasted, but not inserted into blockchain.
    Proposal(Vec<Vec<u8>>),
    /// Regular block seal; should be part of the blockchain.
    Regular(Vec<Vec<u8>>),
    /// Engine does not generate a seal for this block right now.
    Absent,
}

/// What the node does with a seal.
#[derive(Debug, PartialEq, Eq)]
pub enum SealAction {
    /// Put the seal into the header and insert the block into the chain.
    Commit(Vec<Vec<u8>>),
    /// Send the seal to the peers; the block stays out of the chain.
    Broadcast(Vec<Vec<u8>>),
    /// A regular seal with another number of fields than the engine declares
    /// for the header: the block is dropped.
    WrongArity { declared: usize, found: usize },
    /// Nothing to do until the engine can seal.
    Wait,
}

impl Seal {
    /// The action that a seal calls for, given the number of seal fields
    /// that the engine declares for the header.
    pub open spec fn action(self, declared: usize) -> SealAction {
        match self {
            Seal::Regular(fields) => if fields@.len() == declared {
                SealAction::Commit(fields)
            } else {
                SealAction::WrongArity { declared, found: fields.len() }
            },
            Seal::Proposal(fields) => SealAction::Broadcast(fields),
            Seal::Absent => SealAction::Wait,
        }
    }

    /// Whether the seal may become part of the chain under a header for
    /// which the engine declares `declared` seal fields.
    pub open spec fn fit_for_chain(self, declared: usize) -> bool {
        self matches Seal::Regular(fields) && fields@.len() == declared
    }

    /// Decides what to do with a seal. Only a regular seal with exactly the
    /// declared number of fields is committed.
    pub fn dispose(self, declared: usize) -> (action: SealAction)
        ensures
            action == self.action(declared),
            action is Commit <==> self.fit_for_chain(declared),
    {
        match self {
            Seal::Regular(fields) => {
                let found = fields.len();
                if found == declared {
                    SealAction::Commit(fields)
                } else {
                    SealAction::WrongArity { declared, found }
                }
            },
            Seal::Proposal(fields) => SealAction::Broadcast(fields),
            Seal::Absent => SealAction::Wait,
        }
    }
}

/// A proposal seal never reaches the chain, whatever the engine declares.
pub proof fn law_proposal_is_never_committed(seal: Seal, declared: usize)
    requires
        seal is Proposal,
    ensures
        !(seal.action(declared) is Commit),
{
}

/// What is committed is a regular seal, unchanged, with exactly the declared
/// number of fields.
pub proof fn law_committed_seal_is_regular(seal: Seal, declared: usize)
    requires
        seal.action(declared) is Commit,
    ensures
        seal is Regular,
        seal == Seal::Regular(seal.action(declared)->Commit_0),
        seal.action(declared)->Commit_0@.len() == declared,
{
}

} // verus!
