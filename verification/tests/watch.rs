use ethereum_transfer_searcher::amount::Amount;
use ethereum_transfer_searcher::error::WatchError;
use ethereum_transfer_searcher::signal::CancellationSignal;
use ethereum_transfer_searcher::transaction::{Address, ResolvedTransaction, Resolution, TxHash, Wei};
use ethereum_transfer_searcher::watcher::{LiveWatcher, WatchAction, WatchOutcome, WatchState};
use tokio_util::sync::CancellationToken;

fn reference(tag: u8) -> TxHash {
    TxHash { bytes: [tag; 32] }
}

fn transfer(tag: u8, value: u128) -> Resolution {
    Resolution::Found(ResolvedTransaction {
        sender: Address { bytes: [tag; 20] },
        recipient: Some(Address { bytes: [0xee; 20] }),
        value: Wei::from_u128(value),
    })
}

#[test]
fn watcher_skips_a_transaction_that_is_not_found() {
    let threshold = Amount::parse("1").unwrap();
    let mut watcher = LiveWatcher::new();
    assert_eq!(watcher.next_action(), WatchAction::PullNext);
    watcher.on_pulled(Some(reference(1)), false);
    assert_eq!(watcher.next_action(), WatchAction::Resolve(reference(1)));
    assert_eq!(watcher.on_resolved(Resolution::NotFound, &threshold), None);
    assert_eq!(watcher.state(), WatchState::Pulling);
    assert_eq!(watcher.next_action(), WatchAction::PullNext);
    watcher.on_pulled(Some(reference(2)), false);
    let line = watcher.on_resolved(transfer(2, 3_000_000_000_000_000_000), &threshold).unwrap();
    assert_eq!(line.value.to_text(), "3");
    assert_eq!(watcher.next_action(), WatchAction::PullNext);
}

#[test]
fn watcher_ends_in_success_when_the_subscription_ends() {
    let mut watcher = LiveWatcher::new();
    watcher.on_pulled(None, false);
    assert_eq!(watcher.next_action(), WatchAction::Finish(WatchOutcome::Exhausted));
    assert_eq!(WatchOutcome::Exhausted.into_result(), Ok(()));
}

#[test]
fn end_of_subscription_wins_over_a_set_signal() {
    let mut watcher = LiveWatcher::new();
    watcher.on_pulled(None, true);
    assert_eq!(watcher.state(), WatchState::Finished(WatchOutcome::Exhausted));
}

#[test]
fn watcher_stops_unresolved_when_the_signal_is_set() {
    let threshold = Amount::parse("1").unwrap();
    let mut watcher = LiveWatcher::new();
    watcher.on_pulled(Some(reference(1)), false);
    let line = watcher.on_resolved(transfer(1, 4_000_000_000_000_000_000), &threshold);
    assert_eq!(line.unwrap().value.to_text(), "4");
    watcher.on_pulled(Some(reference(2)), true);
    assert_eq!(watcher.next_action(), WatchAction::Finish(WatchOutcome::Cancelled));
    assert_eq!(WatchOutcome::Cancelled.into_result(), Ok(()));
    assert_eq!(watcher.on_resolved(transfer(2, 9_000_000_000_000_000_000), &threshold), None);
    assert_eq!(watcher.next_action(), WatchAction::Finish(WatchOutcome::Cancelled));
}

#[test]
fn watcher_fails_when_the_service_cannot_be_reached() {
    let threshold = Amount::parse("1").unwrap();
    let mut watcher = LiveWatcher::new();
    watcher.on_pulled(Some(reference(1)), false);
    assert_eq!(watcher.on_resolved(Resolution::Failed, &threshold), None);
    let failed = WatchOutcome::Failed(WatchError::Transport);
    assert_eq!(watcher.next_action(), WatchAction::Finish(failed));
    assert_eq!(failed.into_result(), Err(WatchError::Transport));
    watcher.on_pulled(Some(reference(2)), false);
    watcher.on_pulled(None, true);
    assert_eq!(watcher.next_action(), WatchAction::Finish(failed));
}

#[test]
fn the_three_outcomes_are_distinct() {
    assert_ne!(WatchOutcome::Exhausted, WatchOutcome::Cancelled);
    assert_ne!(WatchOutcome::Exhausted, WatchOutcome::Failed(WatchError::Transport));
    assert_ne!(WatchOutcome::Cancelled, WatchOutcome::Failed(WatchError::Transport));
}

#[test]
fn watcher_passes_over_answers_that_are_not_due() {
    let threshold = Amount::parse("1").unwrap();
    let mut watcher = LiveWatcher::new();
    assert_eq!(watcher.on_resolved(transfer(1, 9_000_000_000_000_000_000), &threshold), None);
    assert_eq!(watcher.state(), WatchState::Pulling);
    watcher.on_pulled(Some(reference(1)), false);
    watcher.on_pulled(Some(reference(2)), true);
    assert_eq!(watcher.state(), WatchState::Resolving(reference(1)));
}

#[test]
fn watcher_reads_the_signal_when_an_item_arrives() {
    let token = CancellationToken::new();
    let signal = CancellationSignal::new(token.clone());
    let mut watcher = LiveWatcher::new();
    assert!(!watcher.on_item(Some(reference(1)), &signal));
    assert_eq!(watcher.state(), WatchState::Resolving(reference(1)));
    let threshold = Amount::parse("1").unwrap();
    watcher.on_resolved(Resolution::NotFound, &threshold);
    token.cancel();
    assert!(watcher.on_item(Some(reference(2)), &signal));
    assert_eq!(watcher.state(), WatchState::Finished(WatchOutcome::Cancelled));
}

#[test]
fn watcher_does_not_read_the_signal_at_the_end_of_the_subscription() {
    let token = CancellationToken::new();
    token.cancel();
    let signal = CancellationSignal::new(token);
    let mut watcher = LiveWatcher::new();
    assert!(!watcher.on_item(None, &signal));
    assert_eq!(watcher.state(), WatchState::Finished(WatchOutcome::Exhausted));
}

#[test]
fn signal_set_twice_reads_as_set_once() {
    let token = CancellationToken::new();
    let mut once = CancellationSignal::new(token.clone());
    assert!(!once.is_cancelled());
    once.cancel();
    assert!(once.is_cancelled());
    assert!(token.is_cancelled());
    let other = CancellationToken::new();
    let mut twice = CancellationSignal::new(other.clone());
    twice.cancel();
    twice.cancel();
    assert_eq!(twice.is_cancelled(), once.is_cancelled());
    assert_eq!(other.is_cancelled(), token.is_cancelled());
}

#[test]
fn signal_set_by_another_holder_is_seen() {
    let token = CancellationToken::new();
    let signal = CancellationSignal::new(token.clone());
    assert!(!signal.is_cancelled());
    token.cancel();
    assert!(signal.is_cancelled());
}

#[test]
fn reading_is_set_by_this_holder_or_by_the_token() {
    let mut signal = CancellationSignal::new(CancellationToken::new());
    assert!(!signal.is_cancelled_given(false));
    assert!(signal.is_cancelled_given(true));
    signal.cancel();
    assert!(signal.is_cancelled_given(false));
    assert!(signal.is_cancelled_given(true));
}

#[test]
fn signal_is_over_the_token_it_was_given() {
    let token = CancellationToken::new();
    let unrelated = CancellationToken::new();
    let signal = CancellationSignal::new(token.clone());
    unrelated.cancel();
    assert!(!signal.is_cancelled());
    token.cancel();
    assert!(signal.is_cancelled());
}
