//! The lifecycle controller: it owns the cancellation signal and settles how
//! a run ends, by whichever of the pipeline and the cancellation comes first.

use crate::error::WatchError;
use crate::signal::{raise, CancellationSignal};
use tokio_util::sync::CancellationToken;
use vstd::prelude::*;

verus! {

/// How a run ended.
#[derive(Clone, Copy, Debug, PartialEq, Eq)]
pub enum Outcome {
    /// The pipeline came to its end first, with this result.
    Completed(Result<(), WatchError>),
    /// The cancellation was observed first.
    Cancelled,
}

/// Where a run stands.
#[derive(Clone, Copy, Debug, PartialEq, Eq)]
pub enum Stage {
    /// The pipeline works and nobody has asked it to stop.
    Running,
    /// The operator has asked the run to stop; the pipeline may still find the
    /// signal and end by itself.
    Cancelling,
    /// The run is over.
    Done(Outcome),
}

/// The controller as a mathematical value: where the run stands, and whether
/// the controller has set its signal.
pub struct LifecycleView {
    pub stage: Stage,
    pub signalled: bool,
}

impl LifecycleView {
    /// The controller of a run that starts.
    pub open spec fn initial() -> LifecycleView {
        LifecycleView { stage: Stage::Running, signalled: false }
    }

    /// The signal is set whenever the run is not simply running.
    pub open spec fn consistent(self) -> bool {
        !(self.stage is Running) ==> self.signalled
    }

    /// The controller after the operator's interrupt: a run that was running
    /// is asked to stop, and the signal is set.
    pub open spec fn interrupted(self) -> LifecycleView {
        match self.stage {
            Stage::Running => LifecycleView {
                stage: Stage::Cancelling,
                signalled: raise(self.signalled),
            },
            _ => self,
        }
    }

    /// The controller after the pipeline ended with `result`.
    pub open spec fn completed(self, result: Result<(), WatchError>) -> LifecycleView {
        match self.stage {
            Stage::Done(_) => self,
            _ => LifecycleView {
                stage: Stage::Done(Outcome::Completed(result)),
                signalled: raise(self.signalled),
            },
        }
    }

    /// The controller after the cancellation was observed before the pipeline
    /// ended.
    pub open spec fn cancellation_observed(self) -> LifecycleView {
        match self.stage {
            Stage::Done(_) => self,
            _ => LifecycleView {
                stage: Stage::Done(Outcome::Cancelled),
                signalled: raise(self.signalled),
            },
        }
    }
}

/// A second interrupt changes nothing: the signal is set once.
pub proof fn lemma_interrupt_is_idempotent(controller: LifecycleView)
    ensures
        controller.interrupted().interrupted() == controller.interrupted(),
{
}

/// From its start on the controller is consistent, whatever happens to it.
pub proof fn lemma_consistency_is_kept(controller: LifecycleView, result: Result<(), WatchError>)
    requires
        controller.consistent(),
    ensures
        LifecycleView::initial().consistent(),
        controller.interrupted().consistent(),
        controller.completed(result).consistent(),
        controller.cancellation_observed().consistent(),
{
}

/// A run that is over stays over, with the outcome it had: whichever of the
/// pipeline's end and the cancellation comes first settles it.
pub proof fn lemma_done_is_final(controller: LifecycleView, result: Result<(), WatchError>)
    requires
        controller.stage is Done,
    ensures
        controller.interrupted() == controller,
        controller.completed(result) == controller,
        controller.cancellation_observed() == controller,
{
}

/// An interrupt does not take the pipeline's result away. A pipeline that
/// ends after the interrupt and before the cancellation is observed still
/// completes the run; if the cancellation is observed first, the run is
/// cancelled, which is no failure.
pub proof fn lemma_interrupt_then_end(controller: LifecycleView, result: Result<(), WatchError>)
    requires
        controller.stage is Running,
    ensures
        controller.interrupted().stage == Stage::Cancelling,
        controller.interrupted().signalled,
        controller.interrupted().completed(result).stage == Stage::Done(Outcome::Completed(result)),
        controller.interrupted().cancellation_observed().stage == Stage::Done(Outcome::Cancelled),
{
}

/// The controller of one run.
pub struct Lifecycle {
    stage: Stage,
    signal: CancellationSignal,
}

impl View for Lifecycle {
    type V = LifecycleView;

    closed spec fn view(&self) -> LifecycleView {
        LifecycleView { stage: self.stage, signalled: self.signal@ }
    }
}

impl Lifecycle {
    /// The token through which the controller's signal is shared.
    pub closed spec fn token(&self) -> CancellationToken {
        self.signal.token()
    }

    /// A run that starts, with its signal over `token`.
    pub fn new(token: CancellationToken) -> (lifecycle: Lifecycle)
        ensures
            lifecycle@ == LifecycleView::initial(),
            lifecycle.token() == token,
    {
        Lifecycle { stage: Stage::Running, signal: CancellationSignal::new(token) }
    }

    /// Where the run stands.
    pub fn stage(&self) -> (stage: Stage)
        ensures
            stage == self@.stage,
    {
        self.stage
    }

    /// How the run ended, once it has.
    pub fn outcome(&self) -> (outcome: Option<Outcome>)
        ensures
            outcome == (match self@.stage {
                Stage::Done(outcome) => Some(outcome),
                _ => None,
            }),
    {
        match self.stage {
            Stage::Done(outcome) => Some(outcome),
            _ => None,
        }
    }

    /// The cancellation signal, for the pipeline to read.
    pub fn signal(&self) -> (signal: &CancellationSignal)
        ensures
            signal@ == self@.signalled,
            signal.token() == self.token(),
    {
        &self.signal
    }

    /// Takes the operator's interrupt: sets the signal, and leaves the
    /// pipeline to find it.
    pub fn on_interrupt(&mut self)
        ensures
            final(self)@ == old(self)@.interrupted(),
            final(self).token() == old(self).token(),
    {
        match self.stage {
            Stage::Running => {
                self.signal.cancel();
                self.stage = Stage::Cancelling;
            },
            _ => {},
        }
    }

    /// Takes the end of the pipeline. The signal is set, for whoever still
    /// reads it.
    pub fn on_pipeline_finished(&mut self, result: Result<(), WatchError>)
        ensures
            final(self)@ == old(self)@.completed(result),
            final(self).token() == old(self).token(),
    {
        match self.stage {
            Stage::Done(_) => {},
            _ => {
                self.signal.cancel();
                self.stage = Stage::Done(Outcome::Completed(result));
            },
        }
    }

    /// Takes the news that the cancellation was observed while the pipeline
    /// was still at work.
    pub fn on_cancellation_observed(&mut self)
        ensures
            final(self)@ == old(self)@.cancellation_observed(),
            final(self).token() == old(self).token(),
    {
        match self.stage {
            Stage::Done(_) => {},
            _ => {
                self.signal.cancel();
                self.stage = Stage::Done(Outcome::Cancelled);
            },
        }
    }
}

} // verus!
