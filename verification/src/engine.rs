//! The interface through which a consensus mechanism plugs into the node.

use vstd::prelude::*;
use crate::epoch::{ConstructedVerifier, EpochChange, NoOp, PendingTransition};
use crate::error::Error;
use crate::machine::Machine;
use crate::primitives::{H256, Signature};
use crate::seal::Seal;

verus! {

/// A lookup through which headers are found by hash. It may read from
/// storage on every call and keeps nothing between calls.
pub trait Headers<H> {
    /// The header with that hash, if the chain has it.
    fn header(&self, hash: H256) -> Option<H>;
}

/// A lookup through which pending transitions are found by block hash.
pub trait PendingTransitionStore {
    /// The transition stored under that hash, if there is one.
    fn pending_transition(&self, hash: H256) -> Option<PendingTransition>;
}

/// The operations of an engine that have a default behaviour.
#[derive(Debug, Clone, Copy, PartialEq, Eq, Structural)]
pub enum Hook {
    /// `seal_fields`
    SealFields,
    /// `seals_internally`
    SealsInternally,
    /// `generate_seal`
    GenerateSeal,
    /// `verify_block_basic`
    VerifyBlockBasic,
    /// `verify_block_unordered`
    VerifyBlockUnordered,
    /// `verify_block_family`
    VerifyBlockFamily,
    /// `verify_block_external`
    VerifyBlockExternal,
    /// `genesis_epoch_data`
    GenesisEpochData,
    /// `signals_epoch_end`
    SignalsEpochEnd,
    /// `is_epoch_end`
    IsEpochEnd,
    /// `epoch_verifier`
    EpochVerifier,
    /// `on_new_block`
    OnNewBlock,
    /// `on_close_block`
    OnCloseBlock,
    /// `sign`
    Sign,
}

/// A consensus mechanism for the chain.
///
/// Every operation but `name`, `machine` and `verify_local_seal` has a
/// default. An engine that replaces one says so in `overrides`; of an engine
/// that does not, the operation's contract states what the default does.
pub trait ConsensusEngine<M: Machine>: Sync + Send {
    /// Whether this engine replaces the default behaviour of `hook`.
    open spec fn overrides(&self, hook: Hook) -> bool {
        false
    }

    /// The name of this engine.
    fn name(&self) -> &str;

    /// Get access to the underlying state machine.
    fn machine(&self) -> &M;

    /// The number of additional header fields required for this engine.
    /// By default none.
    fn seal_fields(&self, header: &M::Header) -> (n: usize)
        ensures
            !self.overrides(Hook::SealFields) ==> n == 0,
    {
        0
    }

    /// `None` means that the engine requires external input (e.g. proof of
    /// work) to seal a block; `Some(true)` that the node is qualified to seal
    /// now; `Some(false)` that it might seal internally but is not qualified
    /// now. By default `None`.
    fn seals_internally(&self) -> (r: Option<bool>)
        ensures
            !self.overrides(Hook::SealsInternally) ==> r is None,
    {
        None
    }

    /// Attempt to seal the block internally. Synchronous, and without effect
    /// on the block: where no seal can be made now, the answer is
    /// `Seal::Absent`, which is also the default.
    fn generate_seal(&self, block: &M::LiveBlock, parent: &M::Header) -> (seal: Seal)
        ensures
            !self.overrides(Hook::GenerateSeal) ==> seal is Absent,
    {
        Seal::Absent
    }

    /// Verify a locally-generated seal of a header. An engine that seals
    /// internally may accept without checking; one that is sealed from
    /// outside checks in full.
    fn verify_local_seal(&self, header: &M::Header) -> Result<(), M::Error>;

    /// Phase 1 quick block verification: checks on the header alone that are
    /// cheap. By default passes.
    fn verify_block_basic(&self, header: &M::Header) -> (r: Result<(), M::Error>)
        ensures
            !self.overrides(Hook::VerifyBlockBasic) ==> r is Ok,
    {
        Ok(())
    }

    /// Phase 2 verification: costly checks on the header alone, such as
    /// signatures. By default passes.
    fn verify_block_unordered(&self, header: &M::Header) -> (r: Result<(), M::Error>)
        ensures
            !self.overrides(Hook::VerifyBlockUnordered) ==> r is Ok,
    {
        Ok(())
    }

    /// Phase 3 verification: checks of the header against its parent. By
    /// default passes.
    fn verify_block_family(&self, header: &M::Header, parent: &M::Header) -> (r: Result<
        (),
        M::Error,
    >)
        ensures
            !self.overrides(Hook::VerifyBlockFamily) ==> r is Ok,
    {
        Ok(())
    }

    /// Phase 4 verification: checks of the header against data of the
    /// registered client. By default passes.
    fn verify_block_external(&self, header: &M::Header) -> (r: Result<(), M::Error>)
        ensures
            !self.overrides(Hook::VerifyBlockExternal) ==> r is Ok,
    {
        Ok(())
    }

    /// Genesis epoch data. By default empty.
    fn genesis_epoch_data(&self, header: &M::Header) -> (r: Result<Vec<u8>, String>)
        ensures
            !self.overrides(Hook::GenesisEpochData) ==> (r matches Ok(data) && data@.len() == 0),
    {
        Ok(Vec::new())
    }

    /// Whether an epoch change is signalled at the given header but will
    /// require finality. By default `No`.
    fn signals_epoch_end(&self, header: &M::Header) -> (change: EpochChange)
        ensures
            !self.overrides(Hook::SignalsEpochEnd) ==> change is No,
    {
        EpochChange::No
    }

    /// Whether a block is the end of an epoch: the transition proof, where an
    /// immediate transition occurs or a block signalling transition has
    /// reached finality. By default `None`.
    fn is_epoch_end(
        &self,
        chain_head: &M::Header,
        chain: &dyn Headers<M::Header>,
        transition_store: &dyn PendingTransitionStore,
    ) -> (proof: Option<Vec<u8>>)
        ensures
            !self.overrides(Hook::IsEpochEnd) ==> proof is None,
    {
        None
    }

    /// Create an epoch verifier from validation proof. By default a trusted
    /// verifier that accepts every header.
    fn epoch_verifier<'a>(&self, header: &M::Header, proof: &'a [u8]) -> (verifier:
        ConstructedVerifier<'a, M>)
        ensures
            !self.overrides(Hook::EpochVerifier) ==> verifier == ConstructedVerifier::<
                'a,
                M,
            >::Trusted(Box::new(NoOp)),
    {
        ConstructedVerifier::Trusted(Box::new(NoOp))
    }

    /// Trigger next step of the consensus engine.
    fn step(&self) {
    }

    /// Block transformation functions, before the transactions. By default
    /// leaves the block as it is.
    fn on_new_block(&self, block: &mut M::LiveBlock, epoch_begin: bool) -> (r: Result<
        (),
        M::Error,
    >)
        ensures
            !self.overrides(Hook::OnNewBlock) ==> r is Ok && *final(block) == *old(block),
    {
        Ok(())
    }

    /// Block transformation functions, after the transactions. By default
    /// leaves the block as it is.
    fn on_close_block(&self, block: &mut M::LiveBlock) -> (r: Result<(), M::Error>)
        ensures
            !self.overrides(Hook::OnCloseBlock) ==> r is Ok && *final(block) == *old(block),
    {
        Ok(())
    }

    /// Sign using the node's signing identity, to be used for consensus
    /// messages. Only an engine that replaces this operation can sign: by
    /// default there is no signing identity and the answer is
    /// `Error::Unsupported`, which tells of a wrong configuration.
    fn sign(&self, hash: H256) -> (r: Result<Signature, Error>)
        ensures
            !self.overrides(Hook::Sign) ==> r == Err::<Signature, Error>(Error::Unsupported),
    {
        Err(Error::Unsupported)
    }
}

} // verus!
