//! The live watcher: the references that a subscription delivers, one after
//! the other, until the subscription ends, the run is cancelled or the ledger
//! service fails.
//!
//! The watcher decides; its driver does the waiting. The driver asks for the
//! [`WatchAction`] that is due, pulls the next item or resolves the reference
//! it names, and hands the answer back.

use crate::amount::{Amount, DecimalValue};
use crate::error::WatchError;
use crate::report::{expected_report, line_view, report, ReportLine, ReportView};
use crate::signal::CancellationSignal;
use crate::transaction::{Resolution, TxHash};
use vstd::prelude::*;

verus! {

/// How a watch ended.
#[derive(Clone, Copy, Debug, PartialEq, Eq)]
pub enum WatchOutcome {
    /// The subscription delivered its last item.
    Exhausted,
    /// The cancellation signal was found set.
    Cancelled,
    /// The ledger service failed.
    Failed(WatchError),
}

impl WatchOutcome {
    /// The outcome as success or failure: only a failure of the service is an
    /// error.
    pub open spec fn result(self) -> Result<(), WatchError> {
        match self {
            WatchOutcome::Failed(error) => Err(error),
            _ => Ok(()),
        }
    }

    /// The outcome as success or failure.
    pub fn into_result(self) -> (result: Result<(), WatchError>)
        ensures
            result == self.result(),
    {
        match self {
            WatchOutcome::Failed(error) => Err(error),
            _ => Ok(()),
        }
    }
}

/// What the driver of a watch has to do next.
#[derive(Clone, Copy, Debug, PartialEq, Eq)]
pub enum WatchAction {
    /// Pull the next item from the subscription and hand it to the watcher.
    PullNext,
    /// Resolve this reference and hand the answer to the watcher.
    Resolve(TxHash),
    /// The watch is over, with this outcome.
    Finish(WatchOutcome),
}

/// The state of a watch.
#[derive(Clone, Copy, Debug, PartialEq, Eq)]
pub enum WatchState {
    /// The next item of the subscription is awaited.
    Pulling,
    /// The resolution of this reference is awaited.
    Resolving(TxHash),
    /// The watch is over.
    Finished(WatchOutcome),
}

/// Something that the driver hands to the watcher.
pub enum WatchEvent {
    /// The subscription delivered `item`, or ended; `cancelled` is what the
    /// cancellation signal read when the item arrived.
    Pulled { item: Option<TxHash>, cancelled: bool },
    /// The ledger service answered for the pending reference.
    Resolved(Resolution),
}

impl WatchState {
    /// What is due in this state.
    pub open spec fn pending(self) -> WatchAction {
        match self {
            WatchState::Pulling => WatchAction::PullNext,
            WatchState::Resolving(reference) => WatchAction::Resolve(reference),
            WatchState::Finished(outcome) => WatchAction::Finish(outcome),
        }
    }

    /// The state after the subscription delivered `item`. The end of the
    /// subscription ends the watch. An item that arrives with the signal set
    /// ends it too, unresolved; any other is to be resolved.
    pub open spec fn pulled(self, item: Option<TxHash>, cancelled: bool) -> WatchState {
        match (self, item) {
            (WatchState::Pulling, None) => WatchState::Finished(WatchOutcome::Exhausted),
            (WatchState::Pulling, Some(reference)) => if cancelled {
                WatchState::Finished(WatchOutcome::Cancelled)
            } else {
                WatchState::Resolving(reference)
            },
            _ => self,
        }
    }

    /// The state after the answer `resolution` to the pending reference. A
    /// transaction that the service does not know yet is passed over; a
    /// service that cannot be reached ends the watch.
    pub open spec fn resolved(self, resolution: Resolution) -> WatchState {
        match (self, resolution) {
            (WatchState::Resolving(_), Resolution::Failed) => WatchState::Finished(
                WatchOutcome::Failed(WatchError::Transport),
            ),
            (WatchState::Resolving(_), _) => WatchState::Pulling,
            _ => self,
        }
    }

    /// The report that the answer `resolution` leads to, if any.
    pub open spec fn emitted(self, resolution: Resolution, threshold: DecimalValue) -> Option<
        ReportView,
    > {
        match (self, resolution) {
            (WatchState::Resolving(_), Resolution::Found(tx)) => expected_report(tx, threshold),
            _ => None,
        }
    }

    /// The state after `event`.
    pub open spec fn after(self, event: WatchEvent) -> WatchState {
        match event {
            WatchEvent::Pulled { item, cancelled } => self.pulled(item, cancelled),
            WatchEvent::Resolved(resolution) => self.resolved(resolution),
        }
    }

    /// The report that `event` leads to, if any: only an answer for a
    /// reference can lead to one.
    pub open spec fn emitted_by(self, event: WatchEvent, threshold: DecimalValue) -> Option<
        ReportView,
    > {
        match event {
            WatchEvent::Resolved(resolution) => self.emitted(resolution, threshold),
            WatchEvent::Pulled { .. } => None,
        }
    }

    /// The reports that `events` lead to, in their order.
    pub open spec fn run_reports(self, events: Seq<WatchEvent>, threshold: DecimalValue) -> Seq<
        ReportView,
    >
        decreases events.len(),
    {
        if events.len() == 0 {
            Seq::empty()
        } else {
            let rest = self.after(events[0]).run_reports(events.drop_first(), threshold);
            match self.emitted_by(events[0], threshold) {
                Some(line) => seq![line] + rest,
                None => rest,
            }
        }
    }

    /// The state after `events`, one after the other.
    pub open spec fn run(self, events: Seq<WatchEvent>) -> WatchState
        decreases events.len(),
    {
        if events.len() == 0 {
            self
        } else {
            self.after(events[0]).run(events.drop_first())
        }
    }
}

/// A watch that is over stays over, with the outcome it had.
pub proof fn lemma_finished_watch_is_final(outcome: WatchOutcome, events: Seq<WatchEvent>)
    ensures
        WatchState::Finished(outcome).run(events) == WatchState::Finished(outcome),
    decreases events.len(),
{
    if events.len() > 0 {
        lemma_finished_watch_is_final(outcome, events.drop_first());
    }
}

/// A watch that is over reports nothing more.
pub proof fn lemma_finished_watch_reports_nothing(
    outcome: WatchOutcome,
    events: Seq<WatchEvent>,
    threshold: DecimalValue,
)
    ensures
        WatchState::Finished(outcome).run_reports(events, threshold) == Seq::<ReportView>::empty(),
    decreases events.len(),
{
    if events.len() > 0 {
        lemma_finished_watch_reports_nothing(outcome, events.drop_first(), threshold);
    }
}

/// A watch over two stretches of events is the watch over the first, gone on
/// with over the second: the state follows, and the reports are those of the
/// first stretch and then those of the second.
pub proof fn lemma_watch_in_two_stretches(
    state: WatchState,
    first: Seq<WatchEvent>,
    second: Seq<WatchEvent>,
    threshold: DecimalValue,
)
    ensures
        state.run(first + second) == state.run(first).run(second),
        state.run_reports(first + second, threshold) == state.run_reports(first, threshold)
            + state.run(first).run_reports(second, threshold),
    decreases first.len(),
{
    if first.len() == 0 {
        assert(first + second =~= second);
    } else {
        let all = first + second;
        assert(all[0] == first[0]);
        assert(all.drop_first() =~= first.drop_first() + second);
        lemma_watch_in_two_stretches(state.after(first[0]), first.drop_first(), second, threshold);
        let head = state.emitted_by(first[0], threshold);
        let tail_first = state.after(first[0]).run_reports(first.drop_first(), threshold);
        let tail_second = state.run(first).run_reports(second, threshold);
        if head is Some {
            assert(seq![head->0] + (tail_first + tail_second) =~= (seq![head->0] + tail_first)
                + tail_second);
        }
    }
}

/// A cancellation loses no line and adds none. Where the watch awaits the
/// next item after the events `processed`, and that item arrives with the
/// signal set, the watch ends as cancelled, and its reports are exactly those
/// of `processed`, each once and in their order, whatever arrives later.
pub proof fn lemma_cancellation_keeps_every_line(
    state: WatchState,
    processed: Seq<WatchEvent>,
    reference: TxHash,
    later: Seq<WatchEvent>,
    threshold: DecimalValue,
)
    requires
        state.run(processed) == WatchState::Pulling,
    ensures
        ({
            let cancelling = seq![WatchEvent::Pulled { item: Some(reference), cancelled: true }];
            let events = processed + (cancelling + later);
            &&& state.run(events) == WatchState::Finished(WatchOutcome::Cancelled)
            &&& state.run_reports(events, threshold) == state.run_reports(processed, threshold)
        }),
{
    let cancelling = seq![WatchEvent::Pulled { item: Some(reference), cancelled: true }];
    let over = WatchState::Finished(WatchOutcome::Cancelled);
    lemma_watch_in_two_stretches(state, processed, cancelling + later, threshold);
    lemma_watch_in_two_stretches(WatchState::Pulling, cancelling, later, threshold);
    assert(cancelling.drop_first() =~= Seq::<WatchEvent>::empty());
    assert(WatchState::Pulling.after(cancelling[0]) == over);
    assert(WatchState::Pulling.run(cancelling) == over) by {
        assert(over.run(cancelling.drop_first()) == over);
    }
    assert(WatchState::Pulling.run_reports(cancelling, threshold) =~= Seq::<ReportView>::empty()) by {
        assert(over.run_reports(cancelling.drop_first(), threshold) =~= Seq::<ReportView>::empty());
    }
    lemma_finished_watch_is_final(WatchOutcome::Cancelled, later);
    lemma_finished_watch_reports_nothing(WatchOutcome::Cancelled, later, threshold);
}

/// Only a ledger service that cannot be reached makes a watch fail: as long
/// as no answer is a failure, the watch goes on or ends in success, whatever
/// is not found and whenever it is cancelled.
pub proof fn lemma_watch_fails_only_on_transport(state: WatchState, events: Seq<WatchEvent>)
    requires
        !(state matches WatchState::Finished(WatchOutcome::Failed(_))),
        forall|i: int|
            0 <= i < events.len() ==> !(#[trigger] events[i] matches WatchEvent::Resolved(
                Resolution::Failed,
            )),
    ensures
        !(state.run(events) matches WatchState::Finished(WatchOutcome::Failed(_))),
    decreases events.len(),
{
    if events.len() > 0 {
        let rest = events.drop_first();
        assert(!(events[0] matches WatchEvent::Resolved(Resolution::Failed)));
        assert forall|i: int| 0 <= i < rest.len() implies !(#[trigger] rest[i]
            matches WatchEvent::Resolved(Resolution::Failed)) by {
            assert(rest[i] == events[i + 1]);
        }
        lemma_watch_fails_only_on_transport(state.after(events[0]), rest);
    }
}

/// A watch of one subscription.
#[derive(Clone, Copy, Debug, PartialEq, Eq)]
pub struct LiveWatcher {
    state: WatchState,
}

impl View for LiveWatcher {
    type V = WatchState;

    closed spec fn view(&self) -> WatchState {
        self.state
    }
}

impl LiveWatcher {
    /// A watch that awaits the first item.
    pub fn new() -> (watcher: LiveWatcher)
        ensures
            watcher@ == WatchState::Pulling,
    {
        LiveWatcher { state: WatchState::Pulling }
    }

    /// The state of the watch.
    pub fn state(&self) -> (state: WatchState)
        ensures
            state == self@,
    {
        self.state
    }

    /// What the driver has to do next.
    pub fn next_action(&self) -> (action: WatchAction)
        ensures
            action == self@.pending(),
    {
        match self.state {
            WatchState::Pulling => WatchAction::PullNext,
            WatchState::Resolving(reference) => WatchAction::Resolve(reference),
            WatchState::Finished(outcome) => WatchAction::Finish(outcome),
        }
    }

    /// Takes what the subscription delivered, together with what the
    /// cancellation signal read at that moment.
    pub fn on_pulled(&mut self, item: Option<TxHash>, cancelled: bool)
        ensures
            final(self)@ == old(self)@.pulled(item, cancelled),
    {
        match self.state {
            WatchState::Pulling => {
                self.state = match item {
                    None => WatchState::Finished(WatchOutcome::Exhausted),
                    Some(reference) => if cancelled {
                        WatchState::Finished(WatchOutcome::Cancelled)
                    } else {
                        WatchState::Resolving(reference)
                    },
                };
            },
            _ => {},
        }
    }

    /// Takes what the subscription delivered and reads the cancellation
    /// signal, once, if an item arrived. Returns what the signal read.
    pub fn on_item(&mut self, item: Option<TxHash>, signal: &CancellationSignal) -> (cancelled:
        bool)
        ensures
            final(self)@ == old(self)@.pulled(item, cancelled),
            signal@ && item is Some ==> cancelled,
            item is None ==> !cancelled,
    {
        let cancelled = match item {
            Some(_) => signal.is_cancelled(),
            None => false,
        };
        self.on_pulled(item, cancelled);
        cancelled
    }

    /// Takes the answer to the pending reference and returns the report that
    /// it leads to, if any.
    pub fn on_resolved(&mut self, resolution: Resolution, threshold: &Amount) -> (line: Option<
        ReportLine,
    >)
        ensures
            final(self)@ == old(self)@.resolved(resolution),
            line_view(line) == old(self)@.emitted(resolution, threshold@),
    {
        match self.state {
            WatchState::Resolving(_) => match resolution {
                Resolution::Found(tx) => {
                    self.state = WatchState::Pulling;
                    report(&tx, threshold)
                },
                Resolution::NotFound => {
                    self.state = WatchState::Pulling;
                    None
                },
                Resolution::Failed => {
                    self.state = WatchState::Finished(WatchOutcome::Failed(WatchError::Transport));
                    None
                },
            },
            _ => None,
        }
    }
}

} // verus!
