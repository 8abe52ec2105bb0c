//! The three-stage lifecycle: a node runs an initializer, then a joiner, then a validator reactor
//! behind one outer reactor.
//!
//! Each stage has a scheduler of its own, whose events reach the outer scheduler tagged with that
//! stage. An event is dispatched only while its stage is the current one; an event of another
//! stage is discarded. After each dispatch the stage may advance, never go back.

use vstd::prelude::*;

verus! {

/// Stage of the lifecycle.
#[derive(Clone, Copy, Debug, PartialEq, Eq, Structural)]
pub enum Stage {
    NotStarted,
    Initializing,
    Joining,
    Validating,
}

/// Position of a stage in the lifecycle.
pub open spec fn rank(s: Stage) -> nat {
    match s {
        Stage::NotStarted => 0,
        Stage::Initializing => 1,
        Stage::Joining => 2,
        Stage::Validating => 3,
    }
}

/// An event of the outer reactor, tagged with the stage whose scheduler it came from.
#[derive(Debug)]
pub enum ThreeStageEvent<A, B, C> {
    InitializerEvent(A),
    JoinerEvent(B),
    ValidatorEvent(C),
}

impl<A, B, C> ThreeStageEvent<A, B, C> {
    pub open spec fn spec_stage(&self) -> Stage {
        match self {
            ThreeStageEvent::InitializerEvent(_) => Stage::Initializing,
            ThreeStageEvent::JoinerEvent(_) => Stage::Joining,
            ThreeStageEvent::ValidatorEvent(_) => Stage::Validating,
        }
    }

    /// The stage the event belongs to.
    pub fn stage(&self) -> (r: Stage)
        ensures
            r == self.spec_stage(),
    {
        match self {
            ThreeStageEvent::InitializerEvent(_) => Stage::Initializing,
            ThreeStageEvent::JoinerEvent(_) => Stage::Joining,
            ThreeStageEvent::ValidatorEvent(_) => Stage::Validating,
        }
    }
}

/// The outer reactor: the inner reactor of the current stage, if any.
#[derive(Debug)]
pub enum ThreeStageReactor<I, J, V> {
    NotStarted,
    Initializer(I),
    Joiner(J),
    Validator(V),
}

/// Where an event goes: to the inner reactor of its stage, or nowhere.
#[derive(Debug)]
pub enum Dispatch<A, B, C> {
    ToInitializer(A),
    ToJoiner(B),
    ToValidator(C),
    Discard(ThreeStageEvent<A, B, C>),
}

/// What follows a dispatch.
#[derive(Clone, Copy, Debug, PartialEq, Eq, Structural)]
pub enum Transition {
    /// The stage goes on.
    Stay,
    /// The initializer is done: build the joiner from its state.
    ToJoining,
    /// The joiner is done: build the validator from its state.
    ToValidating,
}

/// A transition that cannot be made.
#[derive(Clone, Copy, Debug, PartialEq, Eq, Structural)]
pub enum TransitionError {
    /// The initializer stopped without success.
    InitializerFailed,
    /// The initializer stopped with events still queued, which the joiner would never see.
    QueueNotEmpty,
}

/// Whether an event of stage `event` is dispatched while the lifecycle is at stage `current`.
pub open spec fn accepts(current: Stage, event: Stage) -> bool {
    current == event && current != Stage::NotStarted
}

/// The transition after a dispatch at stage `current`, given whether the inner reactor has
/// stopped, whether it stopped successfully, and whether its scheduler is empty. The initializer
/// must stop successfully with nothing left queued; a stopped joiner always hands over, since
/// events still on its scheduler reach the validator stage tagged as joiner events and are
/// discarded there.
pub open spec fn transition(
    current: Stage,
    stopped: bool,
    stopped_successfully: bool,
    queue_empty: bool,
) -> Result<Transition, TransitionError> {
    if !stopped {
        Ok(Transition::Stay)
    } else {
        match current {
            Stage::Initializing => if !stopped_successfully {
                Err(TransitionError::InitializerFailed)
            } else if !queue_empty {
                Err(TransitionError::QueueNotEmpty)
            } else {
                Ok(Transition::ToJoining)
            },
            Stage::Joining => Ok(Transition::ToValidating),
            _ => Ok(Transition::Stay),
        }
    }
}

/// The stage after a transition.
pub open spec fn stage_after(current: Stage, t: Transition) -> Stage {
    match t {
        Transition::Stay => current,
        Transition::ToJoining => Stage::Joining,
        Transition::ToValidating => Stage::Validating,
    }
}

/// Decides the transition after a dispatch at stage `current`.
pub fn next_transition(
    current: Stage,
    stopped: bool,
    stopped_successfully: bool,
    queue_empty: bool,
) -> (r: Result<Transition, TransitionError>)
    ensures
        r == transition(current, stopped, stopped_successfully, queue_empty),
{
    if !stopped {
        return Ok(Transition::Stay);
    }
    match current {
        Stage::Initializing => {
            if !stopped_successfully {
                Err(TransitionError::InitializerFailed)
            } else if !queue_empty {
                Err(TransitionError::QueueNotEmpty)
            } else {
                Ok(Transition::ToJoining)
            }
        },
        Stage::Joining => Ok(Transition::ToValidating),
        _ => Ok(Transition::Stay),
    }
}

impl<I, J, V> ThreeStageReactor<I, J, V> {
    pub open spec fn spec_stage(&self) -> Stage {
        match self {
            ThreeStageReactor::NotStarted => Stage::NotStarted,
            ThreeStageReactor::Initializer(_) => Stage::Initializing,
            ThreeStageReactor::Joiner(_) => Stage::Joining,
            ThreeStageReactor::Validator(_) => Stage::Validating,
        }
    }

    /// The current stage.
    pub fn stage(&self) -> (r: Stage)
        ensures
            r == self.spec_stage(),
    {
        match self {
            ThreeStageReactor::NotStarted => Stage::NotStarted,
            ThreeStageReactor::Initializer(_) => Stage::Initializing,
            ThreeStageReactor::Joiner(_) => Stage::Joining,
            ThreeStageReactor::Validator(_) => Stage::Validating,
        }
    }

    /// Where `event` goes: to the current stage's reactor if it belongs to that stage, else it is
    /// discarded.
    pub fn dispatch_event<A, B, C>(&self, event: ThreeStageEvent<A, B, C>) -> (r: Dispatch<A, B, C>)
        ensures
            accepts(self.spec_stage(), event.spec_stage()) ==> match event {
                ThreeStageEvent::InitializerEvent(e) => r == Dispatch::<A, B, C>::ToInitializer(e),
                ThreeStageEvent::JoinerEvent(e) => r == Dispatch::<A, B, C>::ToJoiner(e),
                ThreeStageEvent::ValidatorEvent(e) => r == Dispatch::<A, B, C>::ToValidator(e),
            },
            !accepts(self.spec_stage(), event.spec_stage()) ==> r == Dispatch::Discard(event),
    {
        match (event, self) {
            (ThreeStageEvent::InitializerEvent(e), ThreeStageReactor::Initializer(_)) => {
                Dispatch::ToInitializer(e)
            },
            (ThreeStageEvent::JoinerEvent(e), ThreeStageReactor::Joiner(_)) => Dispatch::ToJoiner(e),
            (ThreeStageEvent::ValidatorEvent(e), ThreeStageReactor::Validator(_)) => {
                Dispatch::ToValidator(e)
            },
            (event, _) => Dispatch::Discard(event),
        }
    }
}

/// What is known after one dispatch: the stage of the event, and whether the inner reactor had
/// stopped, stopped successfully, and had an empty scheduler.
pub struct StepInput {
    pub event: Stage,
    pub stopped: bool,
    pub stopped_successfully: bool,
    pub queue_empty: bool,
}

/// The stage after one dispatch; a transition that cannot be made leaves the stage unchanged
/// (the outer reactor halts there).
pub open spec fn step_stage(current: Stage, input: StepInput) -> Stage {
    if !accepts(current, input.event) {
        current
    } else {
        match transition(current, input.stopped, input.stopped_successfully, input.queue_empty) {
            Ok(t) => stage_after(current, t),
            Err(_) => current,
        }
    }
}

/// The stage after a run of dispatches.
pub open spec fn run_stage(current: Stage, inputs: Seq<StepInput>) -> Stage
    decreases inputs.len(),
{
    if inputs.len() == 0 {
        current
    } else {
        run_stage(step_stage(current, inputs[0]), inputs.drop_first())
    }
}

/// Whether the `i`-th event of a run reaches an inner reactor.
pub open spec fn dispatched(current: Stage, inputs: Seq<StepInput>, i: int) -> bool
    decreases inputs.len(),
{
    if inputs.len() == 0 {
        false
    } else if i == 0 {
        accepts(current, inputs[0].event)
    } else {
        dispatched(step_stage(current, inputs[0]), inputs.drop_first(), i - 1)
    }
}

/// A joiner event after which the joiner has stopped moves the lifecycle to validating, whatever
/// is still queued; an initializer that stopped successfully with nothing queued moves it to
/// joining.
pub proof fn lemma_stopped_stage_advances(input: StepInput)
    ensures
        input.event == Stage::Joining && input.stopped ==> step_stage(Stage::Joining, input)
            == Stage::Validating,
        input.event == Stage::Initializing && input.stopped && input.stopped_successfully
            && input.queue_empty ==> step_stage(Stage::Initializing, input) == Stage::Joining,
{
}

/// The stage never goes back.
pub proof fn lemma_stage_monotonic(current: Stage, inputs: Seq<StepInput>)
    ensures
        rank(run_stage(current, inputs)) >= rank(current),
    decreases inputs.len(),
{
    if inputs.len() > 0 {
        lemma_stage_monotonic(step_stage(current, inputs[0]), inputs.drop_first());
    }
}

/// Stale events are isolated: once the lifecycle is past a stage, no event of that stage reaches
/// an inner reactor again.
pub proof fn lemma_stale_events_discarded(current: Stage, inputs: Seq<StepInput>, i: int)
    requires
        0 <= i < inputs.len(),
        rank(inputs[i].event) < rank(current),
    ensures
        !dispatched(current, inputs, i),
    decreases inputs.len(),
{
    if i > 0 {
        let next = step_stage(current, inputs[0]);
        lemma_stage_monotonic(current, seq![inputs[0]]);
        assert(run_stage(current, seq![inputs[0]]) == run_stage(next, seq![inputs[0]].drop_first()));
        assert(seq![inputs[0]].drop_first().len() == 0);
        lemma_stale_events_discarded(next, inputs.drop_first(), i - 1);
    }
}

} // verus!
