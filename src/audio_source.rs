//! Building an audio source for an event: look the event up by path or ID,
//! create an instance of it, and start that instance where the caller asks
//! for it. The first step that fails ends the build.
use vstd::prelude::*;

verus! {

/// The step of building an audio source that failed.
#[derive(Clone, Copy, Debug, PartialEq, Eq, Structural)]
pub enum SourceFailure {
    LookUpEvent,
    CreateInstance,
    StartInstance,
}

/// Where building an audio source stands: the step to take next, or how it
/// ended.
#[derive(Clone, Copy, Debug, PartialEq, Eq, Structural)]
pub enum SourceStep {
    LookUpEvent,
    CreateInstance,
    StartInstance,
    Ready,
    Failed(SourceFailure),
}

impl SourceStep {
    /// Whether the build is over, ready or failed.
    pub open spec fn is_done(self) -> bool {
        self is Ready || self is Failed
    }

    /// Where the build stands after this step succeeded or failed.
    pub open spec fn spec_after(self, succeeded: bool, auto_start: bool) -> SourceStep {
        match self {
            SourceStep::LookUpEvent => if succeeded {
                SourceStep::CreateInstance
            } else {
                SourceStep::Failed(SourceFailure::LookUpEvent)
            },
            SourceStep::CreateInstance => if !succeeded {
                SourceStep::Failed(SourceFailure::CreateInstance)
            } else if auto_start {
                SourceStep::StartInstance
            } else {
                SourceStep::Ready
            },
            SourceStep::StartInstance => if succeeded {
                SourceStep::Ready
            } else {
                SourceStep::Failed(SourceFailure::StartInstance)
            },
            _ => self,
        }
    }

    /// The first step of building an audio source.
    pub fn start() -> (r: SourceStep)
        ensures
            r == SourceStep::LookUpEvent,
    {
        SourceStep::LookUpEvent
    }

    /// Where the build stands after this step succeeded or failed: a failure
    /// ends it, naming the step; after the instance is created it is started
    /// only where `auto_start` asks for it; a build that is over stays as it is.
    pub fn after(&self, succeeded: bool, auto_start: bool) -> (r: SourceStep)
        ensures
            r == self.spec_after(succeeded, auto_start),
    {
        match *self {
            SourceStep::LookUpEvent => if succeeded {
                SourceStep::CreateInstance
            } else {
                SourceStep::Failed(SourceFailure::LookUpEvent)
            },
            SourceStep::CreateInstance => if !succeeded {
                SourceStep::Failed(SourceFailure::CreateInstance)
            } else if auto_start {
                SourceStep::StartInstance
            } else {
                SourceStep::Ready
            },
            SourceStep::StartInstance => if succeeded {
                SourceStep::Ready
            } else {
                SourceStep::Failed(SourceFailure::StartInstance)
            },
            done => done,
        }
    }
}

/// Where the build stands after `k` steps in a row that all succeeded.
pub open spec fn source_after_successes(k: nat, auto_start: bool) -> SourceStep
    decreases k,
{
    if k == 0 {
        SourceStep::LookUpEvent
    } else {
        source_after_successes((k - 1) as nat, auto_start).spec_after(true, auto_start)
    }
}

/// When every step succeeds, the source is ready after looking the event up
/// and creating an instance, and after starting it as well where `auto_start`
/// asks for it; the instance is started only then.
pub proof fn lemma_source_ready_after_every_step(auto_start: bool)
    ensures
        source_after_successes(if auto_start { 3 } else { 2 }, auto_start) == SourceStep::Ready,
        forall|k: nat|
            k < (if auto_start { 3nat } else { 2nat }) ==> !(#[trigger] source_after_successes(
                k,
                auto_start,
            )).is_done(),
        forall|k: nat|
            #[trigger] source_after_successes(k, auto_start) == SourceStep::StartInstance
                ==> auto_start,
{
    assert(source_after_successes(0, auto_start) == SourceStep::LookUpEvent);
    assert(source_after_successes(1, auto_start) == SourceStep::CreateInstance);
    assert(source_after_successes(2, auto_start) == if auto_start {
        SourceStep::StartInstance
    } else {
        SourceStep::Ready
    });
    assert(source_after_successes(3, auto_start) == SourceStep::Ready);
    assert forall|k: nat| #[trigger]
        source_after_successes(k, auto_start) == SourceStep::StartInstance implies auto_start by {
        lemma_source_steps_with_successes(k, auto_start);
    }
}

/// The steps that a run of successes passes through, in order.
proof fn lemma_source_steps_with_successes(k: nat, auto_start: bool)
    ensures
        k == 0 ==> source_after_successes(k, auto_start) == SourceStep::LookUpEvent,
        k == 1 ==> source_after_successes(k, auto_start) == SourceStep::CreateInstance,
        k == 2 && auto_start ==> source_after_successes(k, auto_start)
            == SourceStep::StartInstance,
        (k >= 2 && !auto_start) || k >= 3 ==> source_after_successes(k, auto_start)
            == SourceStep::Ready,
    decreases k,
{
    if k > 0 {
        lemma_source_steps_with_successes((k - 1) as nat, auto_start);
    }
}

/// A step that fails ends the build and names itself; a build that is over
/// stays as it is, whatever comes after.
pub proof fn lemma_failure_ends_source(step: SourceStep, succeeded: bool, auto_start: bool)
    ensures
        step.is_done() ==> step.spec_after(succeeded, auto_start) == step,
        step == SourceStep::LookUpEvent ==> step.spec_after(false, auto_start)
            == SourceStep::Failed(SourceFailure::LookUpEvent),
        step == SourceStep::CreateInstance ==> step.spec_after(false, auto_start)
            == SourceStep::Failed(SourceFailure::CreateInstance),
        step == SourceStep::StartInstance ==> step.spec_after(false, auto_start)
            == SourceStep::Failed(SourceFailure::StartInstance),
{
}

} // verus!
