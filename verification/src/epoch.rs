//! The epoch-transition protocol: how a header signals a change of the
//! authority set, how the signal waits for finality, and how the verifier of
//! the next epoch is handed out.

use vstd::prelude::*;
use crate::codec::{
    classify, law_decoding_undoes_encoding, law_truncated_encoding_is_rejected, rlp_decode,
    rlp_encode, string_decoding, string_encoding, DecodeError,
};
use crate::error::Error;
use crate::machine::Machine;
use crate::primitives::H256;

verus! {

/// Checks headers against the rules of one epoch.
pub trait EpochVerifier<M: Machine> {
    /// Whether this verifier accepts every header. A verifier that checks
    /// anything leaves this as it is.
    open spec fn accepts_all(&self) -> bool {
        false
    }

    /// Whether `header` is valid under this epoch's authority set.
    fn verify_light(&self, header: &M::Header) -> (r: Result<(), M::Error>)
        ensures
            self.accepts_all() ==> r is Ok,
    ;
}

/// The verifier of chains without epoch transitions: it accepts every header.
pub struct NoOp;

impl NoOp {
    /// Accepts `header`, whatever it holds.
    pub fn accept<M: Machine>(&self, header: &M::Header) -> (r: Result<(), M::Error>)
        ensures
            r is Ok,
    {
        Ok(())
    }
}

impl<M: Machine> EpochVerifier<M> for NoOp {
    fn verify_light(&self, header: &M::Header) -> Result<(), M::Error> {
        self.accept::<M>(header)
    }

    open spec fn accepts_all(&self) -> bool {
        true
    }
}

/// Proof generated on epoch change.
#[derive(Debug, PartialEq, Eq)]
pub enum Proof {
    /// A proof taken from the signal itself: bytes from which the next epoch's
    /// verifier can be rebuilt without trusting whoever supplied them.
    Known(Vec<u8>),
}

/// The answer to whether a header signals the end of an epoch.
#[derive(Debug, PartialEq, Eq)]
pub enum EpochChange {
    /// Cannot be told until more of the chain is known.
    Unsure,
    /// No epoch change.
    No,
    /// The epoch will change, with proof.
    Yes(Proof),
}

/// An epoch transition pending a finality proof. Not all transitions need
/// one. It is stored under the hash of the block that signalled it, written
/// once and only read after that.
#[derive(Debug, PartialEq, Eq)]
pub struct PendingTransition {
    /// The transition proof from the engine.
    pub proof: Vec<u8>,
}

/// The verifier of a new epoch, as built from a transition proof.
#[verifier::reject_recursive_types(M)]
pub enum ConstructedVerifier<'a, M: Machine> {
    /// Fully trusted verifier.
    Trusted(Box<dyn EpochVerifier<M>>),
    /// Verifier unconfirmed: to be trusted only once the finality proof is
    /// shown to finalize the hash under the previous epoch.
    Unconfirmed(Box<dyn EpochVerifier<M>>, &'a [u8], H256),
    /// Error constructing verifier.
    Failed(Error),
}

/// What the node does when a header has been asked for a signal.
#[derive(Debug, PartialEq, Eq)]
pub enum SignalAction {
    /// The header signals nothing.
    Nothing,
    /// Ask again once more of the chain is known.
    Retry,
    /// Store the transition under the header's hash until it is final.
    Store(PendingTransition),
}

impl EpochChange {
    /// The action that the answer calls for. A signalled proof goes into the
    /// pending transition byte for byte.
    pub open spec fn action(self) -> SignalAction {
        match self {
            EpochChange::Unsure => SignalAction::Retry,
            EpochChange::No => SignalAction::Nothing,
            EpochChange::Yes(Proof::Known(proof)) => SignalAction::Store(
                PendingTransition { proof },
            ),
        }
    }

    /// Decides what to do with the answer of `signals_epoch_end`.
    pub fn into_action(self) -> (action: SignalAction)
        ensures
            action == self.action(),
    {
        match self {
            EpochChange::Unsure => SignalAction::Retry,
            EpochChange::No => SignalAction::Nothing,
            EpochChange::Yes(Proof::Known(proof)) => SignalAction::Store(
                PendingTransition { proof },
            ),
        }
    }
}

impl<'a, M: Machine> ConstructedVerifier<'a, M> {
    /// The finality proof and the hash that it must be shown to finalize
    /// under the previous epoch, where the verifier is unconfirmed.
    pub open spec fn claim(self) -> Option<(&'a [u8], H256)> {
        match self {
            ConstructedVerifier::Unconfirmed(_, finality_proof, hash) => Some(
                (finality_proof, hash),
            ),
            _ => None,
        }
    }

    /// The verifier to use for the new epoch, given whether the finality
    /// claim was confirmed under the previous epoch.
    pub open spec fn resolution(self, confirmed: bool) -> Result<Box<dyn EpochVerifier<M>>, Error> {
        match self {
            ConstructedVerifier::Trusted(verifier) => Ok(verifier),
            ConstructedVerifier::Unconfirmed(verifier, _, hash) => if confirmed {
                Ok(verifier)
            } else {
                Err(Error::NotFinalized(hash))
            },
            ConstructedVerifier::Failed(error) => Err(error),
        }
    }

    /// What the caller has to check under the previous epoch before the
    /// verifier can be trusted: nothing for a trusted or a failed one.
    pub fn finality_claim(&self) -> (claim: Option<(&'a [u8], H256)>)
        ensures
            claim == self.claim(),
    {
        match self {
            ConstructedVerifier::Unconfirmed(_, finality_proof, hash) => Some(
                (*finality_proof, *hash),
            ),
            _ => None,
        }
    }

    /// Hands out the verifier of the new epoch. `confirmed` says whether the
    /// finality claim was checked and holds under the previous epoch; a
    /// trusted verifier needs no check, a failed construction gives its error.
    pub fn into_trusted(self, confirmed: bool) -> (r: Result<Box<dyn EpochVerifier<M>>, Error>)
        ensures
            r == self.resolution(confirmed),
    {
        match self {
            ConstructedVerifier::Trusted(verifier) => Ok(verifier),
            ConstructedVerifier::Unconfirmed(verifier, _, hash) => if confirmed {
                Ok(verifier)
            } else {
                Err(Error::NotFinalized(hash))
            },
            ConstructedVerifier::Failed(error) => Err(error),
        }
    }
}

/// An unconfirmed verifier is handed out only after its finality claim was
/// confirmed: without the confirmation the answer is an error that names the
/// hash, and every verifier handed out was trusted from the start or
/// confirmed.
pub proof fn law_unconfirmed_needs_confirmation<'a, M: Machine>(
    constructed: ConstructedVerifier<'a, M>,
    confirmed: bool,
)
    ensures
        constructed is Unconfirmed && !confirmed ==> constructed.resolution(confirmed) == Err::<
            Box<dyn EpochVerifier<M>>,
            Error,
        >(Error::NotFinalized(constructed->Unconfirmed_2)),
        constructed.resolution(confirmed) is Ok ==> constructed is Trusted || (constructed
            is Unconfirmed && confirmed),
{
}

/// A stored transition reads back as it was written: the encoding of a
/// transition whose proof has a length that fits 32 bits decodes to that
/// proof.
pub proof fn law_stored_transition_reads_back(transition: PendingTransition)
    requires
        transition.proof@.len() <= u32::MAX,
        transition.encoding().len() <= usize::MAX,
    ensures
        string_decoding(transition.encoding()) == Ok::<Seq<u8>, DecodeError>(transition.proof@),
{
    law_decoding_undoes_encoding(transition.proof@);
}

/// A stored transition that was cut off is not read: no proper prefix of the
/// encoding of a transition whose proof has a length that fits 32 bits
/// decodes.
pub proof fn law_cut_off_transition_is_rejected(transition: PendingTransition, keep: int)
    requires
        transition.proof@.len() <= u32::MAX,
        0 <= keep < transition.encoding().len(),
    ensures
        string_decoding(transition.encoding().take(keep)) is Err,
{
    law_truncated_encoding_is_rejected(transition.proof@, keep);
}

/// Nothing is stored without a signal: a transition is stored exactly when
/// the header signalled a change, and its proof is the signalled proof.
pub proof fn law_stored_transition_is_the_signalled_one(change: EpochChange)
    ensures
        change.action() is Store <==> change is Yes,
        change matches EpochChange::Yes(Proof::Known(proof)) ==> change.action()
            == SignalAction::Store(PendingTransition { proof }),
{
}

impl PendingTransition {
    /// The bytes under which the transition is stored.
    pub open spec fn encoding(self) -> Seq<u8> {
        string_encoding(self.proof@)
    }

    /// Appends the encoding of this transition to `out`.
    pub fn rlp_append(&self, out: &mut Vec<u8>)
        ensures
            final(out)@ == old(out)@ + self.encoding(),
    {
        let mut bytes = rlp_encode(&self.proof);
        out.append(&mut bytes);
    }

    /// The encoding of this transition: its proof as one length-prefixed
    /// byte string.
    pub fn rlp_bytes(&self) -> (out: Vec<u8>)
        ensures
            out@ == self.encoding(),
    {
        rlp_encode(&self.proof)
    }

    /// Reads a transition from the front of `raw`.
    pub fn decode(raw: &[u8]) -> (r: Result<PendingTransition, DecodeError>)
        ensures
            match r {
                Ok(t) => string_decoding(raw@) == Ok::<Seq<u8>, DecodeError>(t.proof@),
                Err(e) => string_decoding(raw@) == Err::<Seq<u8>, DecodeError>(e),
            },
    {
        match rlp_decode(raw) {
            Ok(proof) => Ok(PendingTransition { proof }),
            Err(e) => Err(classify(e)),
        }
    }
}

} // verus!
