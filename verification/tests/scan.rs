use ethereum_transfer_searcher::amount::Amount;
use ethereum_transfer_searcher::error::WatchError;
use ethereum_transfer_searcher::report::ReportLine;
use ethereum_transfer_searcher::scanner::{ScanAction, SnapshotScanner};
use ethereum_transfer_searcher::transaction::{Address, ResolvedTransaction, Resolution, TxHash, Wei};

fn hash(tag: u8) -> TxHash {
    TxHash { bytes: [tag; 32] }
}

fn found(tag: u8, value: u128) -> Resolution {
    Resolution::Found(ResolvedTransaction {
        sender: Address { bytes: [tag; 20] },
        recipient: Some(Address { bytes: [0xee; 20] }),
        value: Wei::from_u128(value),
    })
}

fn drive(references: Vec<TxHash>, answers: Vec<Resolution>, threshold: &Amount) -> (Vec<TxHash>, Vec<ReportLine>, Result<(), WatchError>) {
    let mut scanner = SnapshotScanner::new(references);
    let mut asked = Vec::new();
    let mut lines = Vec::new();
    let mut answers = answers.into_iter();
    loop {
        match scanner.next_action() {
            ScanAction::Resolve(reference) => {
                asked.push(reference);
                let answer = answers.next().unwrap();
                if let Some(line) = scanner.on_resolved(answer, threshold) {
                    lines.push(line);
                }
            }
            ScanAction::Finish(result) => return (asked, lines, result),
        }
    }
}

#[test]
fn scan_reports_only_the_transfer_that_reaches_the_threshold() {
    let threshold = Amount::parse("2.0").unwrap();
    let (asked, lines, result) = drive(
        vec![hash(1), hash(2), hash(3)],
        vec![
            found(1, 500_000_000_000_000_000),
            found(2, 2_000_000_000_000_000_000),
            found(3, 1_999_999_999_999_999_999),
        ],
        &threshold,
    );
    assert_eq!(result, Ok(()));
    assert_eq!(asked, vec![hash(1), hash(2), hash(3)]);
    assert_eq!(lines.len(), 1);
    assert_eq!(lines[0].sender, Address { bytes: [2; 20] });
    assert_eq!(lines[0].value.to_text(), "2");
}

#[test]
fn scan_fails_on_a_transaction_that_is_not_found() {
    let threshold = Amount::parse("1").unwrap();
    let (asked, lines, result) = drive(
        vec![hash(1), hash(2), hash(3)],
        vec![found(1, 5_000_000_000_000_000_000), Resolution::NotFound],
        &threshold,
    );
    assert_eq!(result, Err(WatchError::NotFoundInconsistency(hash(2))));
    assert_eq!(asked, vec![hash(1), hash(2)]);
    assert_eq!(lines.len(), 1);
    assert_eq!(lines[0].sender, Address { bytes: [1; 20] });
}

#[test]
fn failed_scan_takes_no_more_answers() {
    let threshold = Amount::parse("1").unwrap();
    let mut scanner = SnapshotScanner::new(vec![hash(1), hash(2)]);
    assert_eq!(scanner.on_resolved(Resolution::NotFound, &threshold), None);
    let failure = ScanAction::Finish(Err(WatchError::NotFoundInconsistency(hash(1))));
    assert_eq!(scanner.next_action(), failure);
    assert_eq!(scanner.on_resolved(found(2, 9_000_000_000_000_000_000), &threshold), None);
    assert_eq!(scanner.next_action(), failure);
    assert_eq!(scanner.on_resolved(Resolution::Failed, &threshold), None);
    assert_eq!(scanner.next_action(), failure);
}

#[test]
fn scan_fails_when_the_service_cannot_be_reached() {
    let threshold = Amount::parse("1").unwrap();
    let (asked, lines, result) =
        drive(vec![hash(1), hash(2)], vec![Resolution::Failed], &threshold);
    assert_eq!(result, Err(WatchError::Transport));
    assert_eq!(asked, vec![hash(1)]);
    assert!(lines.is_empty());
}

#[test]
fn scan_of_an_empty_block_is_over_at_once() {
    let threshold = Amount::parse("1").unwrap();
    let mut scanner = SnapshotScanner::new(Vec::new());
    assert_eq!(scanner.next_action(), ScanAction::Finish(Ok(())));
    assert_eq!(scanner.on_resolved(found(1, 9_000_000_000_000_000_000), &threshold), None);
    assert_eq!(scanner.next_action(), ScanAction::Finish(Ok(())));
}

#[test]
fn scan_reports_in_block_order() {
    let threshold = Amount::parse("0.5").unwrap();
    let (asked, lines, result) = drive(
        vec![hash(7), hash(3), hash(9), hash(4)],
        vec![
            found(7, 3_000_000_000_000_000_000),
            found(3, 100),
            found(9, 500_000_000_000_000_000),
            found(4, 1_250_000_000_000_000_000),
        ],
        &threshold,
    );
    assert_eq!(result, Ok(()));
    assert_eq!(asked, vec![hash(7), hash(3), hash(9), hash(4)]);
    let texts: Vec<String> = lines.iter().map(|line| line.value.to_text()).collect();
    assert_eq!(texts, vec!["3", "0.5", "1.25"]);
    let senders: Vec<u8> = lines.iter().map(|line| line.sender.bytes[0]).collect();
    assert_eq!(senders, vec![7, 9, 4]);
}

#[test]
fn scan_drops_a_contract_creation_above_the_threshold() {
    let threshold = Amount::parse("1").unwrap();
    let creation = Resolution::Found(ResolvedTransaction {
        sender: Address { bytes: [1; 20] },
        recipient: None,
        value: Wei::from_u128(50_000_000_000_000_000_000),
    });
    let (_, lines, result) = drive(vec![hash(1)], vec![creation], &threshold);
    assert_eq!(result, Ok(()));
    assert!(lines.is_empty());
}
