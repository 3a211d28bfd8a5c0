//! The snapshot scanner: every transaction of one block, in the block's order.
//!
//! The scanner decides; its driver does the waiting. The driver asks for the
//! [`ScanAction`] that is due, resolves the reference it names, and hands the
//! answer back.

use crate::amount::{Amount, DecimalValue};
use crate::error::WatchError;
use crate::report::{expected_report, line_view, report, ReportLine, ReportView};
use crate::transaction::{Resolution, TxHash};
use vstd::prelude::*;

verus! {

/// What the driver of a scan has to do next.
#[derive(Clone, Copy, Debug, PartialEq, Eq)]
pub enum ScanAction {
    /// Resolve this reference and hand the answer to the scanner.
    Resolve(TxHash),
    /// The scan is over, with this result.
    Finish(Result<(), WatchError>),
}

/// The state of a scan as a mathematical value.
pub struct ScanView {
    /// The references of the block, in its order.
    pub references: Seq<TxHash>,
    /// How many of them have been resolved and filtered.
    pub position: nat,
    /// The failure that ended the scan, if one did.
    pub failure: Option<WatchError>,
}

impl ScanView {
    /// Whether the scan waits for the resolution of a reference.
    pub open spec fn waiting(self) -> bool {
        self.failure is None && self.position < self.references.len()
    }

    /// What is due in this state.
    pub open spec fn pending(self) -> ScanAction {
        match self.failure {
            Some(error) => ScanAction::Finish(Err(error)),
            None => if self.position < self.references.len() {
                ScanAction::Resolve(self.references[self.position as int])
            } else {
                ScanAction::Finish(Ok(()))
            },
        }
    }

    /// The state after the answer `resolution` to the pending reference. A
    /// transaction that the service does not know, or a service that cannot be
    /// reached, ends the scan; a scan that is over takes no more answers.
    pub open spec fn resolved(self, resolution: Resolution) -> ScanView {
        if !self.waiting() {
            self
        } else {
            match resolution {
                Resolution::Found(_) => ScanView { position: self.position + 1, ..self },
                Resolution::NotFound => ScanView {
                    failure: Some(
                        WatchError::NotFoundInconsistency(self.references[self.position as int]),
                    ),
                    ..self
                },
                Resolution::Failed => ScanView { failure: Some(WatchError::Transport), ..self },
            }
        }
    }

    /// The report that the answer `resolution` leads to, if any.
    pub open spec fn emitted(self, resolution: Resolution, threshold: DecimalValue) -> Option<
        ReportView,
    > {
        match resolution {
            Resolution::Found(tx) if self.waiting() => expected_report(tx, threshold),
            _ => None,
        }
    }

    /// The state after the answers `resolutions`, one after the other.
    pub open spec fn run(self, resolutions: Seq<Resolution>) -> ScanView
        decreases resolutions.len(),
    {
        if resolutions.len() == 0 {
            self
        } else {
            self.resolved(resolutions[0]).run(resolutions.drop_first())
        }
    }

    /// The reports that the answers `resolutions` lead to, in their order.
    pub open spec fn run_reports(self, resolutions: Seq<Resolution>, threshold: DecimalValue) -> Seq<
        ReportView,
    >
        decreases resolutions.len(),
    {
        if resolutions.len() == 0 {
            Seq::empty()
        } else {
            let rest = self.resolved(resolutions[0]).run_reports(
                resolutions.drop_first(),
                threshold,
            );
            match self.emitted(resolutions[0], threshold) {
                Some(line) => seq![line] + rest,
                None => rest,
            }
        }
    }
}

/// A scan that has failed stays as it is and reports nothing more, whatever
/// answers still arrive.
pub proof fn lemma_failed_scan_is_final(
    scan: ScanView,
    resolutions: Seq<Resolution>,
    threshold: DecimalValue,
)
    requires
        scan.failure is Some,
    ensures
        scan.run(resolutions) == scan,
        scan.run_reports(resolutions, threshold) == Seq::<ReportView>::empty(),
    decreases resolutions.len(),
{
    if resolutions.len() > 0 {
        lemma_failed_scan_is_final(scan, resolutions.drop_first(), threshold);
    }
}

/// The scan fails at the first answer that is not a transaction: the
/// references before it are filtered, none after it is, and the failure names
/// the reference that the service did not know.
pub proof fn lemma_scan_stops_at_first_failure(
    scan: ScanView,
    resolutions: Seq<Resolution>,
    threshold: DecimalValue,
    first: int,
)
    requires
        scan.failure is None,
        0 <= first < resolutions.len(),
        scan.position + first < scan.references.len(),
        forall|i: int| 0 <= i < first ==> resolutions[i] is Found,
        !(resolutions[first] is Found),
    ensures
        scan.run(resolutions).position == scan.position + first,
        scan.run(resolutions).failure == Some(
            if resolutions[first] is NotFound {
                WatchError::NotFoundInconsistency(scan.references[scan.position + first])
            } else {
                WatchError::Transport
            },
        ),
        scan.run_reports(resolutions, threshold) == scan.run_reports(
            resolutions.take(first),
            threshold,
        ),
    decreases first,
{
    let next = scan.resolved(resolutions[0]);
    let rest = resolutions.drop_first();
    if first == 0 {
        lemma_failed_scan_is_final(next, rest, threshold);
        assert(resolutions.take(0) =~= Seq::<Resolution>::empty());
    } else {
        assert forall|i: int| 0 <= i < first - 1 implies rest[i] is Found by {
            assert(rest[i] == resolutions[i + 1]);
        }
        lemma_scan_stops_at_first_failure(next, rest, threshold, first - 1);
        assert(resolutions.take(first).drop_first() =~= rest.take(first - 1));
        assert(resolutions.take(first)[0] == resolutions[0]);
    }
}

/// Where every reference resolves to a transaction, the scan ends without a
/// failure, having filtered them all.
pub proof fn lemma_scan_completes(scan: ScanView, resolutions: Seq<Resolution>)
    requires
        scan.failure is None,
        scan.position + resolutions.len() == scan.references.len(),
        forall|i: int| 0 <= i < resolutions.len() ==> resolutions[i] is Found,
    ensures
        scan.run(resolutions).pending() == ScanAction::Finish(Ok(())),
    decreases resolutions.len(),
{
    if resolutions.len() > 0 {
        let rest = resolutions.drop_first();
        assert forall|i: int| 0 <= i < rest.len() implies rest[i] is Found by {
            assert(rest[i] == resolutions[i + 1]);
        }
        lemma_scan_completes(scan.resolved(resolutions[0]), rest);
    }
}

/// A scan of one block.
#[derive(Debug, PartialEq, Eq)]
pub struct SnapshotScanner {
    references: Vec<TxHash>,
    position: usize,
    failure: Option<WatchError>,
}

impl View for SnapshotScanner {
    type V = ScanView;

    closed spec fn view(&self) -> ScanView {
        ScanView {
            references: self.references@,
            position: self.position as nat,
            failure: self.failure,
        }
    }
}

impl SnapshotScanner {
    /// A scan of the block that holds `references`, with nothing resolved yet.
    pub fn new(references: Vec<TxHash>) -> (scanner: SnapshotScanner)
        ensures
            scanner@ == (ScanView { references: references@, position: 0, failure: None }),
    {
        SnapshotScanner { references, position: 0, failure: None }
    }

    /// What the driver has to do next.
    pub fn next_action(&self) -> (action: ScanAction)
        ensures
            action == self@.pending(),
    {
        match self.failure {
            Some(error) => ScanAction::Finish(Err(error)),
            None => if self.position < self.references.len() {
                ScanAction::Resolve(self.references[self.position])
            } else {
                ScanAction::Finish(Ok(()))
            },
        }
    }

    /// Takes the answer to the pending reference and returns the report that
    /// it leads to, if any.
    pub fn on_resolved(&mut self, resolution: Resolution, threshold: &Amount) -> (line: Option<
        ReportLine,
    >)
        ensures
            final(self)@ == old(self)@.resolved(resolution),
            line_view(line) == old(self)@.emitted(resolution, threshold@),
    {
        if self.failure.is_some() || self.position >= self.references.len() {
            return None;
        }
        match resolution {
            Resolution::Found(tx) => {
                self.position = self.position + 1;
                report(&tx, threshold)
            },
            Resolution::NotFound => {
                self.failure = Some(
                    WatchError::NotFoundInconsistency(self.references[self.position]),
                );
                None
            },
            Resolution::Failed => {
                self.failure = Some(WatchError::Transport);
                None
            },
        }
    }
}

} // verus!
