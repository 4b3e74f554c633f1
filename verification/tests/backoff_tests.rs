use constella::backoff::{
    host_pool_size, pool_size, scanner_send_step, Backoff, PreparerErrors, PreparerSend,
    SendAction, SendOutcome,
};

#[test]
fn delays_double_up_to_the_cap() {
    let mut b = Backoff::new();
    let delays: Vec<u64> = (0..10).map(|_| b.next()).collect();
    assert_eq!(delays, vec![1, 2, 4, 8, 16, 32, 64, 100, 100, 100]);
}

#[test]
fn a_scanner_retries_a_full_channel_until_told_to_stop() {
    let mut b = Backoff::new();
    assert_eq!(scanner_send_step(&mut b, SendOutcome::Full, false), SendAction::RetryAfter(1));
    assert_eq!(scanner_send_step(&mut b, SendOutcome::Full, false), SendAction::RetryAfter(2));
    assert_eq!(scanner_send_step(&mut b, SendOutcome::Full, false), SendAction::RetryAfter(4));
    assert_eq!(scanner_send_step(&mut b, SendOutcome::Full, true), SendAction::Quit);
    assert_eq!(scanner_send_step(&mut b, SendOutcome::Sent, false), SendAction::Done);
    assert_eq!(scanner_send_step(&mut b, SendOutcome::Sent, true), SendAction::Done);
    assert_eq!(scanner_send_step(&mut b, SendOutcome::Disconnected, false), SendAction::Quit);
}

#[test]
fn a_scanner_goes_on_retrying_at_the_cap() {
    let mut b = Backoff::new();
    let mut last = SendAction::Done;
    for _ in 0..50 {
        last = scanner_send_step(&mut b, SendOutcome::Full, false);
    }
    assert_eq!(last, SendAction::RetryAfter(100));
}

#[test]
fn a_preparer_gives_a_send_up_at_the_third_full_channel() {
    let mut s = PreparerSend::new();
    assert_eq!(s.step(SendOutcome::Full), SendAction::RetryAfter(1));
    assert_eq!(s.step(SendOutcome::Full), SendAction::RetryAfter(2));
    assert_eq!(s.step(SendOutcome::Full), SendAction::GiveUp);
}

#[test]
fn a_preparer_send_ends_on_success_or_disconnect() {
    let mut s = PreparerSend::new();
    assert_eq!(s.step(SendOutcome::Sent), SendAction::Done);
    let mut t = PreparerSend::new();
    assert_eq!(t.step(SendOutcome::Full), SendAction::RetryAfter(1));
    assert_eq!(t.step(SendOutcome::Disconnected), SendAction::Quit);
}

#[test]
fn a_preparer_leaves_after_six_sends_given_up_in_a_row() {
    let mut e = PreparerErrors::new();
    for i in 1..=5 {
        assert!(!e.record(SendAction::GiveUp), "after {} sends given up", i);
    }
    assert_eq!(e, PreparerErrors { consecutive: 5, total: 5 });
    assert!(e.record(SendAction::GiveUp));
    assert_eq!(e, PreparerErrors { consecutive: 6, total: 6 });
}

#[test]
fn a_success_ends_the_row_and_keeps_the_total() {
    let mut e = PreparerErrors::new();
    assert!(!e.record(SendAction::GiveUp));
    assert!(!e.record(SendAction::GiveUp));
    assert!(!e.record(SendAction::Done));
    assert_eq!(e, PreparerErrors { consecutive: 0, total: 2 });
    assert!(!e.record(SendAction::RetryAfter(4)));
    assert_eq!(e, PreparerErrors { consecutive: 0, total: 2 });
}

#[test]
fn a_preparer_leaves_after_twenty_one_sends_given_up_in_all() {
    let mut e = PreparerErrors::new();
    for i in 1..=20 {
        assert!(!e.record(SendAction::GiveUp), "after {} sends given up", i);
        assert!(!e.record(SendAction::Done));
    }
    assert_eq!(e, PreparerErrors { consecutive: 0, total: 20 });
    assert!(e.record(SendAction::GiveUp));
    assert_eq!(e, PreparerErrors { consecutive: 1, total: 21 });
}

#[test]
fn a_preparer_leaves_when_the_channel_is_disconnected() {
    let mut e = PreparerErrors::new();
    assert!(e.record(SendAction::Quit));
    assert_eq!(e, PreparerErrors { consecutive: 0, total: 0 });
}

#[test]
fn a_preparer_over_the_total_limit_leaves() {
    let mut e = PreparerErrors { consecutive: 0, total: 20 };
    assert!(e.record(SendAction::GiveUp));
    assert_eq!(e, PreparerErrors { consecutive: 1, total: 21 });
}

#[test]
fn the_pool_has_at_most_four_workers() {
    assert_eq!(pool_size(0), 0);
    assert_eq!(pool_size(1), 1);
    assert_eq!(pool_size(3), 3);
    assert_eq!(pool_size(4), 4);
    assert_eq!(pool_size(64), 4);
    let here = host_pool_size();
    assert!(here >= 1 && here <= 4);
}
