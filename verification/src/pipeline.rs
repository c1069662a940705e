//! The verification of an incoming header: four phases of rising cost, run in
//! a fixed order, the first failure ending the run.

use vstd::prelude::*;
use crate::engine::{ConsensusEngine, Hook};
use crate::machine::Machine;

verus! {

/// One of the four checks applied to an incoming header.
#[derive(Debug, Clone, Copy, PartialEq, Eq, Structural)]
pub enum Phase {
    /// Cheap checks on the header alone.
    Basic,
    /// Costly checks on the header alone.
    Unordered,
    /// Checks against the parent header.
    Family,
    /// Checks against data of the registered client.
    External,
}

impl Phase {
    /// The place of the phase in the order, from one to four.
    pub open spec fn rank(self) -> nat {
        match self {
            Phase::Basic => 1,
            Phase::Unordered => 2,
            Phase::Family => 3,
            Phase::External => 4,
        }
    }

    /// The phase that follows, if any.
    pub open spec fn successor(self) -> Option<Phase> {
        match self {
            Phase::Basic => Some(Phase::Unordered),
            Phase::Unordered => Some(Phase::Family),
            Phase::Family => Some(Phase::External),
            Phase::External => None,
        }
    }

    /// The operation of the engine that carries the phase out.
    pub open spec fn hook(self) -> Hook {
        match self {
            Phase::Basic => Hook::VerifyBlockBasic,
            Phase::Unordered => Hook::VerifyBlockUnordered,
            Phase::Family => Hook::VerifyBlockFamily,
            Phase::External => Hook::VerifyBlockExternal,
        }
    }

    /// The phase that follows, if any.
    pub fn next(self) -> (n: Option<Phase>)
        ensures
            n == self.successor(),
    {
        match self {
            Phase::Basic => Some(Phase::Unordered),
            Phase::Unordered => Some(Phase::Family),
            Phase::Family => Some(Phase::External),
            Phase::External => None,
        }
    }
}

/// Where the verification of one header stands.
#[derive(Debug, PartialEq, Eq)]
pub enum Progress<E> {
    /// The phase to invoke next; all phases before it have passed.
    Pending(Phase),
    /// All four phases have passed.
    Accepted,
    /// The phase that failed, and its error. No later phase was invoked.
    Rejected(Phase, E),
}

impl<E> Progress<E> {
    /// The state that follows when the pending phase ends with `outcome`. A
    /// finished verification stays as it is.
    pub open spec fn after(self, outcome: Result<(), E>) -> Progress<E> {
        match self {
            Progress::Pending(phase) => match outcome {
                Ok(_) => match phase.successor() {
                    Some(next) => Progress::Pending(next),
                    None => Progress::Accepted,
                },
                Err(error) => Progress::Rejected(phase, error),
            },
            _ => self,
        }
    }

    /// The state after the phases have ended with `outcomes`, in order.
    pub open spec fn after_all(self, outcomes: Seq<Result<(), E>>) -> Progress<E>
        decreases outcomes.len(),
    {
        if outcomes.len() == 0 {
            self
        } else {
            self.after_all(outcomes.drop_last()).after(outcomes.last())
        }
    }

    /// The phase that the pipeline invokes in this state, if any.
    pub open spec fn to_invoke(self) -> Option<Phase> {
        match self {
            Progress::Pending(phase) => Some(phase),
            _ => None,
        }
    }

    /// The state of a header that no phase has seen yet.
    pub fn start() -> (state: Progress<E>)
        ensures
            state == Progress::<E>::Pending(Phase::Basic),
    {
        Progress::Pending(Phase::Basic)
    }

    /// The phase to invoke now: none once the header is accepted or rejected.
    pub fn next_phase(&self) -> (phase: Option<Phase>)
        ensures
            phase == self.to_invoke(),
    {
        match self {
            Progress::Pending(phase) => Some(*phase),
            _ => None,
        }
    }

    /// Takes in the outcome of the pending phase.
    pub fn record(self, outcome: Result<(), E>) -> (state: Progress<E>)
        ensures
            state == self.after(outcome),
    {
        match self {
            Progress::Pending(phase) => match outcome {
                Ok(_) => match phase.next() {
                    Some(next) => Progress::Pending(next),
                    None => Progress::Accepted,
                },
                Err(error) => Progress::Rejected(phase, error),
            },
            Progress::Accepted => Progress::Accepted,
            Progress::Rejected(phase, error) => Progress::Rejected(phase, error),
        }
    }
}

/// A failure ends the run: the state after a failed phase names that phase
/// and its error, schedules no phase, and no later outcome changes it.
pub proof fn law_failure_ends_verification<E>(
    phase: Phase,
    error: E,
    later: Seq<Result<(), E>>,
)
    ensures
        Progress::<E>::Pending(phase).after(Err(error)) == Progress::Rejected(phase, error),
        Progress::Rejected(phase, error).to_invoke() is None,
        Progress::Rejected(phase, error).after_all(later) == Progress::Rejected(phase, error),
    decreases later.len(),
{
    if later.len() > 0 {
        law_failure_ends_verification(phase, error, later.drop_last());
    }
}

/// The phases run in order: from the start, after `passed` phases have
/// passed, the phase of rank `passed + 1` is pending, and after four the
/// header is accepted.
pub proof fn law_phases_run_in_order<E>(outcomes: Seq<Result<(), E>>)
    requires
        outcomes.len() <= 4,
        forall|i: int| 0 <= i < outcomes.len() ==> outcomes[i] is Ok,
    ensures
        outcomes.len() < 4 ==> (Progress::<E>::Pending(Phase::Basic).after_all(outcomes)
            matches Progress::Pending(phase) && phase.rank() == outcomes.len() + 1),
        outcomes.len() == 4 ==> Progress::<E>::Pending(Phase::Basic).after_all(outcomes)
            is Accepted,
    decreases outcomes.len(),
{
    if outcomes.len() > 0 {
        law_phases_run_in_order(outcomes.drop_last());
    }
}

/// Whether `outcome` is an answer of the engine to `phase`, invoked on
/// `header` and, for the family phase, on `parent`.
pub open spec fn answers<M: Machine, C: ConsensusEngine<M>>(
    engine: &C,
    phase: Phase,
    header: &M::Header,
    parent: &M::Header,
    outcome: Result<(), M::Error>,
) -> bool {
    match phase {
        Phase::Basic => call_ensures(C::verify_block_basic, (engine, header), outcome),
        Phase::Unordered => call_ensures(C::verify_block_unordered, (engine, header), outcome),
        Phase::Family => call_ensures(C::verify_block_family, (engine, header, parent), outcome),
        Phase::External => call_ensures(C::verify_block_external, (engine, header), outcome),
    }
}

/// Whether the engine has passed `header` in every phase of a rank up to
/// `rank`.
pub open spec fn passed_up_to<M: Machine, C: ConsensusEngine<M>>(
    engine: &C,
    rank: nat,
    header: &M::Header,
    parent: &M::Header,
) -> bool {
    forall|phase: Phase|
        phase.rank() <= rank ==> #[trigger] answers::<M, C>(
            engine,
            phase,
            header,
            parent,
            Ok(()),
        )
}

/// Invokes one phase on the engine: the operation that carries the phase
/// out, on `header`, and for the family phase on `parent`. The outcome is the
/// engine's answer.
pub fn run_phase<M: Machine, C: ConsensusEngine<M>>(
    engine: &C,
    phase: Phase,
    header: &M::Header,
    parent: &M::Header,
) -> (outcome: Result<(), M::Error>)
    ensures
        answers::<M, C>(engine, phase, header, parent, outcome),
        !engine.overrides(phase.hook()) ==> outcome is Ok,
{
    match phase {
        Phase::Basic => engine.verify_block_basic(header),
        Phase::Unordered => engine.verify_block_unordered(header),
        Phase::Family => engine.verify_block_family(header, parent),
        Phase::External => engine.verify_block_external(header),
    }
}

/// Verifies a header: invokes the phases in order and stops at the first
/// that fails. The header is accepted where the engine passed it in all four
/// phases; it is rejected with the error of the first phase that the engine
/// failed it in, after the engine passed it in every phase before that one.
/// An engine that keeps the four defaults accepts.
pub fn verify_header<M: Machine, C: ConsensusEngine<M>>(
    engine: &C,
    header: &M::Header,
    parent: &M::Header,
) -> (verdict: Progress<M::Error>)
    ensures
        verdict is Accepted || verdict is Rejected,
        verdict is Accepted ==> passed_up_to::<M, C>(engine, 4, header, parent),
        verdict matches Progress::Rejected(phase, error) ==> {
            &&& answers::<M, C>(engine, phase, header, parent, Err(error))
            &&& passed_up_to::<M, C>(engine, (phase.rank() - 1) as nat, header, parent)
            &&& engine.overrides(phase.hook())
        },
{
    let mut state: Progress<M::Error> = Progress::start();
    let ghost mut passed: nat = 0;
    loop
        invariant
            state matches Progress::Pending(phase) ==> phase.rank() == passed + 1,
            state is Accepted ==> passed == 4,
            !(state is Rejected) ==> passed_up_to::<M, C>(engine, passed, header, parent),
            state matches Progress::Rejected(phase, error) ==> {
                &&& answers::<M, C>(engine, phase, header, parent, Err(error))
                &&& passed_up_to::<M, C>(engine, (phase.rank() - 1) as nat, header, parent)
                &&& engine.overrides(phase.hook())
            },
        ensures
            state is Accepted || state is Rejected,
        decreases
            (if state is Pending {
                5 - passed
            } else {
                0
            }),
    {
        match state.next_phase() {
            Some(phase) => {
                let outcome = run_phase::<M, C>(engine, phase, header, parent);
                proof {
                    if outcome is Ok {
                        assert(outcome->Ok_0 == ());
                        assert forall|earlier: Phase| earlier.rank() <= passed + 1 implies answers::<
                            M,
                            C,
                        >(engine, earlier, header, parent, Ok(())) by {
                            if earlier.rank() == passed + 1 {
                                assert(earlier == phase);
                            }
                        }
                        passed = passed + 1;
                    }
                }
                state = state.record(outcome);
            },
            None => {
                break ;
            },
        }
    }
    state
}

} // verus!
