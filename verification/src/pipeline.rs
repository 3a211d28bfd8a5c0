//! The pipeline of one run: the latest block is fetched and scanned, then the
//! pending transactions are watched.
//!
//! The pipeline decides; its driver does the waiting. The driver asks for the
//! [`PipelineAction`] that is due, performs it against the ledger service, and
//! hands the answer to the method that takes it. An answer that is not due is
//! passed over.

use crate::amount::{Amount, DecimalValue};
use crate::error::WatchError;
use crate::report::{line_view, ReportLine, ReportView};
use crate::scanner::{lemma_scan_completes, ScanAction, ScanView, SnapshotScanner};
use crate::signal::CancellationSignal;
use crate::transaction::{Resolution, TxHash};
use crate::watcher::{
    lemma_cancellation_keeps_every_line, LiveWatcher, WatchAction, WatchEvent, WatchOutcome,
    WatchState,
};
use vstd::prelude::*;

verus! {

/// What the driver of the pipeline has to do next.
#[derive(Clone, Copy, Debug, PartialEq, Eq)]
pub enum PipelineAction {
    /// Ask for the height of the latest block.
    FetchLatestHeight,
    /// Ask for the block at this height.
    FetchBlock(u64),
    /// Resolve this reference.
    Resolve(TxHash),
    /// Subscribe to the pending transactions.
    Subscribe,
    /// Pull the next item from the subscription.
    PullNext,
    /// The pipeline is over, with this outcome.
    Finish(WatchOutcome),
}

/// The phase of a pipeline as a mathematical value.
pub enum PhaseView {
    /// The height of the latest block is awaited.
    AwaitingHeight,
    /// The block at this height is awaited.
    AwaitingBlock(u64),
    /// The block is scanned.
    Scanning(ScanView),
    /// The subscription is awaited.
    Subscribing,
    /// The subscription is watched.
    Watching(WatchState),
    /// The pipeline is over.
    Finished(WatchOutcome),
}

impl PhaseView {
    /// The phase that follows at once where a scan or a watch has come to its
    /// end: after a scan without failure the subscription, after a failed one
    /// the end of the pipeline, after a watch its outcome.
    pub open spec fn settled(self) -> PhaseView {
        match self {
            PhaseView::Scanning(scan) => match scan.pending() {
                ScanAction::Resolve(_) => self,
                ScanAction::Finish(Ok(_)) => PhaseView::Subscribing,
                ScanAction::Finish(Err(error)) => PhaseView::Finished(WatchOutcome::Failed(error)),
            },
            PhaseView::Watching(WatchState::Finished(outcome)) => PhaseView::Finished(outcome),
            _ => self,
        }
    }

    /// What is due in this phase.
    pub open spec fn pending(self) -> PipelineAction {
        match self.settled() {
            PhaseView::AwaitingHeight => PipelineAction::FetchLatestHeight,
            PhaseView::AwaitingBlock(height) => PipelineAction::FetchBlock(height),
            PhaseView::Scanning(scan) => PipelineAction::Resolve(
                scan.references[scan.position as int],
            ),
            PhaseView::Subscribing => PipelineAction::Subscribe,
            PhaseView::Watching(WatchState::Resolving(reference)) => PipelineAction::Resolve(
                reference,
            ),
            PhaseView::Watching(_) => PipelineAction::PullNext,
            PhaseView::Finished(outcome) => PipelineAction::Finish(outcome),
        }
    }

    /// The phase after the service gave the height of the latest block.
    pub open spec fn height_fetched(self, height: u64) -> PhaseView {
        match self {
            PhaseView::AwaitingHeight => PhaseView::AwaitingBlock(height),
            _ => self,
        }
    }

    /// The phase after the service gave the block, or said that it has none
    /// at that height, which ends the pipeline.
    pub open spec fn block_fetched(self, block: Option<Seq<TxHash>>) -> PhaseView {
        match (self, block) {
            (PhaseView::AwaitingBlock(_), Some(references)) => PhaseView::Scanning(
                ScanView { references, position: 0, failure: None },
            ).settled(),
            (PhaseView::AwaitingBlock(height), None) => PhaseView::Finished(
                WatchOutcome::Failed(WatchError::BlockNotFound(height)),
            ),
            _ => self,
        }
    }

    /// The phase after the subscription was set up.
    pub open spec fn subscribed(self) -> PhaseView {
        match self {
            PhaseView::Subscribing => PhaseView::Watching(WatchState::Pulling),
            _ => self,
        }
    }

    /// The phase after the subscription delivered `item`.
    pub open spec fn pulled(self, item: Option<TxHash>, cancelled: bool) -> PhaseView {
        match self {
            PhaseView::Watching(watch) => PhaseView::Watching(
                watch.pulled(item, cancelled),
            ).settled(),
            _ => self,
        }
    }

    /// The phase after the service answered for the pending reference. The
    /// scan fails on a transaction that the service does not know; the watch
    /// passes it over.
    pub open spec fn resolved(self, resolution: Resolution) -> PhaseView {
        match self {
            PhaseView::Scanning(scan) => PhaseView::Scanning(scan.resolved(resolution)).settled(),
            PhaseView::Watching(watch) => PhaseView::Watching(
                watch.resolved(resolution),
            ).settled(),
            _ => self,
        }
    }

    /// The report that the answer `resolution` leads to, if any.
    pub open spec fn emitted(self, resolution: Resolution, threshold: DecimalValue) -> Option<
        ReportView,
    > {
        match self {
            PhaseView::Scanning(scan) => scan.emitted(resolution, threshold),
            PhaseView::Watching(watch) => watch.emitted(resolution, threshold),
            _ => None,
        }
    }

    /// The phase after the service could not be reached: a pipeline that is
    /// not over ends in failure.
    pub open spec fn transport_failed(self) -> PhaseView {
        match self {
            PhaseView::Finished(_) => self,
            _ => PhaseView::Finished(WatchOutcome::Failed(WatchError::Transport)),
        }
    }
}

/// Something that the driver hands to the pipeline.
pub enum PipelineEvent {
    /// The service gave the height of the latest block.
    LatestHeight(u64),
    /// The service gave the references of the block, or has no such block.
    Block(Option<Seq<TxHash>>),
    /// The subscription is set up.
    Subscribed,
    /// The subscription delivered `item`, or ended; `cancelled` is what the
    /// cancellation signal read when the item arrived.
    Pulled { item: Option<TxHash>, cancelled: bool },
    /// The service answered for the pending reference.
    Resolved(Resolution),
    /// The service could not be reached.
    TransportFailed,
}

impl PipelineEvent {
    /// An event of the watch as an event of the pipeline.
    pub open spec fn of_watch(event: WatchEvent) -> PipelineEvent {
        match event {
            WatchEvent::Pulled { item, cancelled } => PipelineEvent::Pulled { item, cancelled },
            WatchEvent::Resolved(resolution) => PipelineEvent::Resolved(resolution),
        }
    }
}

/// The events of a watch as events of the pipeline.
pub open spec fn watch_events(events: Seq<WatchEvent>) -> Seq<PipelineEvent> {
    events.map_values(|event: WatchEvent| PipelineEvent::of_watch(event))
}

/// The answers to the references of a block as events of the pipeline.
pub open spec fn scan_events(resolutions: Seq<Resolution>) -> Seq<PipelineEvent> {
    resolutions.map_values(|resolution: Resolution| PipelineEvent::Resolved(resolution))
}

impl PhaseView {
    /// The phase after `event`.
    pub open spec fn after(self, event: PipelineEvent) -> PhaseView {
        match event {
            PipelineEvent::LatestHeight(height) => self.height_fetched(height),
            PipelineEvent::Block(block) => self.block_fetched(block),
            PipelineEvent::Subscribed => self.subscribed(),
            PipelineEvent::Pulled { item, cancelled } => self.pulled(item, cancelled),
            PipelineEvent::Resolved(resolution) => self.resolved(resolution),
            PipelineEvent::TransportFailed => self.transport_failed(),
        }
    }

    /// The report that `event` leads to, if any.
    pub open spec fn emitted_by(self, event: PipelineEvent, threshold: DecimalValue) -> Option<
        ReportView,
    > {
        match event {
            PipelineEvent::Resolved(resolution) => self.emitted(resolution, threshold),
            _ => None,
        }
    }

    /// The phase after `events`, one after the other.
    pub open spec fn run(self, events: Seq<PipelineEvent>) -> PhaseView
        decreases events.len(),
    {
        if events.len() == 0 {
            self
        } else {
            self.after(events[0]).run(events.drop_first())
        }
    }

    /// The reports that `events` lead to, in their order.
    pub open spec fn run_reports(self, events: Seq<PipelineEvent>, threshold: DecimalValue) -> Seq<
        ReportView,
    >
        decreases events.len(),
    {
        if events.len() == 0 {
            Seq::empty()
        } else {
            let rest = self.after(events[0]).run_reports(events.drop_first(), threshold);
            match self.emitted_by(events[0], threshold) {
                Some(line) => seq![line] + rest,
                None => rest,
            }
        }
    }
}

/// A pipeline over two stretches of events is the pipeline over the first,
/// gone on with over the second: the phase follows, and the reports are those
/// of the first stretch and then those of the second.
pub proof fn lemma_pipeline_in_two_stretches(
    phase: PhaseView,
    first: Seq<PipelineEvent>,
    second: Seq<PipelineEvent>,
    threshold: DecimalValue,
)
    ensures
        phase.run(first + second) == phase.run(first).run(second),
        phase.run_reports(first + second, threshold) == phase.run_reports(first, threshold)
            + phase.run(first).run_reports(second, threshold),
    decreases first.len(),
{
    if first.len() == 0 {
        assert(first + second =~= second);
    } else {
        let all = first + second;
        assert(all[0] == first[0]);
        assert(all.drop_first() =~= first.drop_first() + second);
        lemma_pipeline_in_two_stretches(
            phase.after(first[0]),
            first.drop_first(),
            second,
            threshold,
        );
        let head = phase.emitted_by(first[0], threshold);
        let tail_first = phase.after(first[0]).run_reports(first.drop_first(), threshold);
        let tail_second = phase.run(first).run_reports(second, threshold);
        if head is Some {
            assert(seq![head->0] + (tail_first + tail_second) =~= (seq![head->0] + tail_first)
                + tail_second);
        }
    }
}

/// While the block is scanned, the pipeline is its scan: the answers lead to
/// the phase that the scan's state settles to, and to the scan's reports.
pub proof fn lemma_scanning_follows_the_scan(
    scan: ScanView,
    resolutions: Seq<Resolution>,
    threshold: DecimalValue,
)
    ensures
        PhaseView::Scanning(scan).settled().run(scan_events(resolutions)) == PhaseView::Scanning(
            scan.run(resolutions),
        ).settled(),
        PhaseView::Scanning(scan).settled().run_reports(scan_events(resolutions), threshold)
            == scan.run_reports(resolutions, threshold),
    decreases resolutions.len(),
{
    let events = scan_events(resolutions);
    if resolutions.len() > 0 {
        assert(events[0] == PipelineEvent::Resolved(resolutions[0]));
        assert(events.drop_first() =~= scan_events(resolutions.drop_first()));
        let next = scan.resolved(resolutions[0]);
        lemma_scanning_follows_the_scan(next, resolutions.drop_first(), threshold);
        if !scan.waiting() {
            assert(next == scan);
        }
    }
}

/// While the subscription is watched, the pipeline is its watch: the events
/// lead to the phase that the watch's state settles to, and to the watch's
/// reports.
pub proof fn lemma_watching_follows_the_watch(
    watch: WatchState,
    events: Seq<WatchEvent>,
    threshold: DecimalValue,
)
    ensures
        PhaseView::Watching(watch).settled().run(watch_events(events)) == PhaseView::Watching(
            watch.run(events),
        ).settled(),
        PhaseView::Watching(watch).settled().run_reports(watch_events(events), threshold)
            == watch.run_reports(events, threshold),
    decreases events.len(),
{
    let lifted = watch_events(events);
    if events.len() > 0 {
        assert(lifted[0] == PipelineEvent::of_watch(events[0]));
        assert(lifted.drop_first() =~= watch_events(events.drop_first()));
        lemma_watching_follows_the_watch(watch.after(events[0]), events.drop_first(), threshold);
    }
}

/// A cancellation loses no line and adds none. Let the block be scanned to
/// its end by the answers `scanned` (none, for an empty block), the
/// subscription be set up, and the
/// events `watched` leave the watch awaiting the next item. If that item
/// arrives with the signal set, the pipeline ends as cancelled, which is no
/// failure, and its reports are the scan's reports followed by those of
/// `watched`, each once and in their order, whatever arrives later.
pub proof fn lemma_cancelled_run_keeps_every_line(
    scan: ScanView,
    scanned: Seq<Resolution>,
    watched: Seq<WatchEvent>,
    reference: TxHash,
    later: Seq<WatchEvent>,
    threshold: DecimalValue,
)
    requires
        scan.failure is None,
        scan.position + scanned.len() == scan.references.len(),
        forall|i: int| 0 <= i < scanned.len() ==> scanned[i] is Found,
        WatchState::Pulling.run(watched) == WatchState::Pulling,
    ensures
        ({
            let cancelling = seq![WatchEvent::Pulled { item: Some(reference), cancelled: true }];
            let events = scan_events(scanned) + (seq![PipelineEvent::Subscribed] + watch_events(
                watched + (cancelling + later),
            ));
            &&& PhaseView::Scanning(scan).settled().run(events) == PhaseView::Finished(
                WatchOutcome::Cancelled,
            )
            &&& PhaseView::Scanning(scan).settled().run_reports(events, threshold)
                == scan.run_reports(
                scanned,
                threshold,
            ) + WatchState::Pulling.run_reports(watched, threshold)
        }),
{
    let cancelling = seq![WatchEvent::Pulled { item: Some(reference), cancelled: true }];
    let live = watched + (cancelling + later);
    let subscribing = seq![PipelineEvent::Subscribed];
    let start = PhaseView::Scanning(scan).settled();
    lemma_scanning_follows_the_scan(scan, scanned, threshold);
    lemma_scan_completes(scan, scanned);
    assert(start.run(scan_events(scanned)) == PhaseView::Subscribing);
    lemma_pipeline_in_two_stretches(
        start,
        scan_events(scanned),
        subscribing + watch_events(live),
        threshold,
    );
    lemma_pipeline_in_two_stretches(
        PhaseView::Subscribing,
        subscribing,
        watch_events(live),
        threshold,
    );
    let watching = PhaseView::Watching(WatchState::Pulling);
    assert(subscribing.drop_first() =~= Seq::<PipelineEvent>::empty());
    assert(PhaseView::Subscribing.after(subscribing[0]) == watching);
    assert(PhaseView::Subscribing.run(subscribing) == watching) by {
        assert(watching.run(subscribing.drop_first()) == watching);
    }
    assert(PhaseView::Subscribing.run_reports(subscribing, threshold) =~= Seq::<
        ReportView,
    >::empty()) by {
        assert(watching.run_reports(subscribing.drop_first(), threshold) =~= Seq::<
            ReportView,
        >::empty());
    }
    assert(watching.settled() == watching);
    lemma_watching_follows_the_watch(WatchState::Pulling, live, threshold);
    lemma_cancellation_keeps_every_line(WatchState::Pulling, watched, reference, later, threshold);
}

/// Settling a phase a second time changes nothing.
pub proof fn lemma_settled_is_idempotent(phase: PhaseView)
    ensures
        phase.settled().settled() == phase.settled(),
{
}

/// A pipeline that is over stays over, with the outcome it had.
pub proof fn lemma_finished_pipeline_is_final(
    outcome: WatchOutcome,
    height: u64,
    block: Option<Seq<TxHash>>,
    item: Option<TxHash>,
    cancelled: bool,
    resolution: Resolution,
)
    ensures
        ({
            let over = PhaseView::Finished(outcome);
            &&& over.height_fetched(height) == over
            &&& over.block_fetched(block) == over
            &&& over.subscribed() == over
            &&& over.pulled(item, cancelled) == over
            &&& over.resolved(resolution) == over
            &&& over.transport_failed() == over
            &&& over.pending() == PipelineAction::Finish(outcome)
        }),
{
}

/// The two phases treat a transaction that the service does not know in
/// opposite ways: the scan ends the pipeline with the failure that names the
/// reference, the watch goes on to the next item.
pub proof fn lemma_not_found_fails_scan_only(scan: ScanView, reference: TxHash)
    requires
        scan.waiting(),
    ensures
        PhaseView::Scanning(scan).resolved(Resolution::NotFound) == PhaseView::Finished(
            WatchOutcome::Failed(
                WatchError::NotFoundInconsistency(scan.references[scan.position as int]),
            ),
        ),
        PhaseView::Watching(WatchState::Resolving(reference)).resolved(Resolution::NotFound)
            == PhaseView::Watching(WatchState::Pulling),
{
}

/// A cancellation that is found when an item arrives ends the pipeline in
/// success, not in failure.
pub proof fn lemma_cancellation_is_success(reference: TxHash)
    ensures
        PhaseView::Watching(WatchState::Pulling).pulled(Some(reference), true)
            == PhaseView::Finished(WatchOutcome::Cancelled),
        WatchOutcome::Cancelled.result() == Ok::<(), WatchError>(()),
{
}

enum Phase {
    AwaitingHeight,
    AwaitingBlock(u64),
    Scanning(SnapshotScanner),
    Subscribing,
    Watching(LiveWatcher),
    Finished(WatchOutcome),
}

impl View for Phase {
    type V = PhaseView;

    closed spec fn view(&self) -> PhaseView {
        match self {
            Phase::AwaitingHeight => PhaseView::AwaitingHeight,
            Phase::AwaitingBlock(height) => PhaseView::AwaitingBlock(*height),
            Phase::Scanning(scanner) => PhaseView::Scanning(scanner@),
            Phase::Subscribing => PhaseView::Subscribing,
            Phase::Watching(watcher) => PhaseView::Watching(watcher@),
            Phase::Finished(outcome) => PhaseView::Finished(*outcome),
        }
    }
}

/// The pipeline of one run.
pub struct Pipeline {
    threshold: Amount,
    phase: Phase,
}

impl Pipeline {
    /// The threshold of the run.
    pub closed spec fn threshold(&self) -> DecimalValue {
        self.threshold@
    }

    /// The phase of the pipeline.
    pub closed spec fn phase(&self) -> PhaseView {
        self.phase@
    }

    /// A pipeline at its start, which reports the transfers of at least
    /// `threshold`.
    pub fn new(threshold: Amount) -> (pipeline: Pipeline)
        ensures
            pipeline.threshold() == threshold@,
            pipeline.phase() == PhaseView::AwaitingHeight,
    {
        Pipeline { threshold, phase: Phase::AwaitingHeight }
    }

    /// What the driver has to do next.
    pub fn next_action(&self) -> (action: PipelineAction)
        ensures
            action == self.phase().pending(),
    {
        match &self.phase {
            Phase::AwaitingHeight => PipelineAction::FetchLatestHeight,
            Phase::AwaitingBlock(height) => PipelineAction::FetchBlock(*height),
            Phase::Scanning(scanner) => match scanner.next_action() {
                ScanAction::Resolve(reference) => PipelineAction::Resolve(reference),
                ScanAction::Finish(Ok(_)) => PipelineAction::Subscribe,
                ScanAction::Finish(Err(error)) => PipelineAction::Finish(
                    WatchOutcome::Failed(error),
                ),
            },
            Phase::Subscribing => PipelineAction::Subscribe,
            Phase::Watching(watcher) => match watcher.next_action() {
                WatchAction::PullNext => PipelineAction::PullNext,
                WatchAction::Resolve(reference) => PipelineAction::Resolve(reference),
                WatchAction::Finish(outcome) => PipelineAction::Finish(outcome),
            },
            Phase::Finished(outcome) => PipelineAction::Finish(*outcome),
        }
    }

    fn settle(&mut self)
        ensures
            final(self).phase() == old(self).phase().settled(),
            final(self).threshold() == old(self).threshold(),
    {
        let next = match &self.phase {
            Phase::Scanning(scanner) => match scanner.next_action() {
                ScanAction::Resolve(_) => None,
                ScanAction::Finish(Ok(_)) => Some(Phase::Subscribing),
                ScanAction::Finish(Err(error)) => Some(
                    Phase::Finished(WatchOutcome::Failed(error)),
                ),
            },
            Phase::Watching(watcher) => match watcher.next_action() {
                WatchAction::Finish(outcome) => Some(Phase::Finished(outcome)),
                _ => None,
            },
            _ => None,
        };
        match next {
            Some(phase) => {
                self.phase = phase;
            },
            None => {},
        }
    }

    /// Takes the height of the latest block.
    pub fn on_latest_height(&mut self, height: u64)
        ensures
            final(self).phase() == old(self).phase().height_fetched(height),
            final(self).threshold() == old(self).threshold(),
    {
        match &self.phase {
            Phase::AwaitingHeight => {
                self.phase = Phase::AwaitingBlock(height);
            },
            _ => {},
        }
    }

    /// Takes the references of the block that was asked for, or `None` where
    /// the service has no such block.
    pub fn on_block(&mut self, block: Option<Vec<TxHash>>)
        ensures
            final(self).phase() == old(self).phase().block_fetched(
                match block {
                    Some(references) => Some(references@),
                    None => None,
                },
            ),
            final(self).threshold() == old(self).threshold(),
    {
        let next = match &self.phase {
            Phase::AwaitingBlock(height) => match block {
                Some(references) => Some(Phase::Scanning(SnapshotScanner::new(references))),
                None => Some(
                    Phase::Finished(WatchOutcome::Failed(WatchError::BlockNotFound(*height))),
                ),
            },
            _ => None,
        };
        match next {
            Some(phase) => {
                self.phase = phase;
                self.settle();
            },
            None => {},
        }
    }

    /// Takes the news that the subscription is set up.
    pub fn on_subscribed(&mut self)
        ensures
            final(self).phase() == old(self).phase().subscribed(),
            final(self).threshold() == old(self).threshold(),
    {
        match &self.phase {
            Phase::Subscribing => {
                self.phase = Phase::Watching(LiveWatcher::new());
            },
            _ => {},
        }
    }

    /// Takes what the subscription delivered and reads the cancellation
    /// signal, once, if an item arrived while the subscription is watched.
    /// Returns what the signal read.
    pub fn on_item(&mut self, item: Option<TxHash>, signal: &CancellationSignal) -> (cancelled:
        bool)
        ensures
            final(self).phase() == old(self).phase().pulled(item, cancelled),
            final(self).threshold() == old(self).threshold(),
            signal@ && item is Some && old(self).phase() is Watching ==> cancelled,
            item is None || !(old(self).phase() is Watching) ==> !cancelled,
    {
        let polled = match &mut self.phase {
            Phase::Watching(watcher) => Some(watcher.on_item(item, signal)),
            _ => None,
        };
        match polled {
            Some(cancelled) => {
                self.settle();
                cancelled
            },
            None => false,
        }
    }

    /// Takes the answer to the pending reference and returns the report that
    /// it leads to, if any.
    pub fn on_resolved(&mut self, resolution: Resolution) -> (line: Option<ReportLine>)
        ensures
            final(self).phase() == old(self).phase().resolved(resolution),
            final(self).threshold() == old(self).threshold(),
            line_view(line) == old(self).phase().emitted(resolution, old(self).threshold()),
    {
        let line = match &mut self.phase {
            Phase::Scanning(scanner) => scanner.on_resolved(resolution, &self.threshold),
            Phase::Watching(watcher) => watcher.on_resolved(resolution, &self.threshold),
            _ => None,
        };
        self.settle();
        line
    }

    /// Takes the news that the service could not be reached.
    pub fn on_transport_failure(&mut self)
        ensures
            final(self).phase() == old(self).phase().transport_failed(),
            final(self).threshold() == old(self).threshold(),
    {
        match &self.phase {
            Phase::Finished(_) => {},
            _ => {
                self.phase = Phase::Finished(WatchOutcome::Failed(WatchError::Transport));
            },
        }
    }
}

} // verus!
