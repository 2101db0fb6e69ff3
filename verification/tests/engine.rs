use clipsync::engine::{same_bytes, Action, Event, SyncEngine};
use clipsync::policy::Policy;

fn hello() -> Vec<u8> {
    b"hello".to_vec()
}

fn fetched(content: &[u8]) -> Event {
    Event::Fetched { content: content.to_vec() }
}

/// One signal, then quiet at `quiet_at`; returns what the engine asks for.
fn burst_of_one(engine: &mut SyncEngine, quiet_at: u64) -> Action {
    assert_eq!(
        engine.step(Event::Signal, quiet_at.saturating_sub(150)),
        Action::AwaitSignalFor { window_ms: 150 }
    );
    engine.step(Event::Quiet, quiet_at)
}

/// An engine that has published `content` at time `written_at`.
fn engine_after_publish(content: &[u8], written_at: u64) -> SyncEngine {
    let mut engine = SyncEngine::new(Policy::default());
    assert_eq!(
        burst_of_one(&mut engine, written_at.saturating_sub(10)),
        Action::Fetch { timeout_ms: 200, skipped: 0 }
    );
    assert_eq!(
        engine.step(fetched(content), written_at.saturating_sub(5)),
        Action::Publish { content: content.to_vec() }
    );
    assert_eq!(engine.step(Event::Published, written_at), Action::AwaitSignal);
    engine
}

#[test]
fn new_engine_waits_with_nothing_synced() {
    let engine = SyncEngine::new(Policy::default());
    assert_eq!(engine.action(), Action::AwaitSignal);
    assert!(engine.snapshot().is_empty());
    assert_eq!(engine.last_write_ms(), None);
    assert!(!engine.is_stopped());
    assert_eq!(engine.policy().debounce_ms(), 150);
}

#[test]
fn scenario_first_copy_is_published() {
    let mut engine = SyncEngine::new(Policy::default());
    assert_eq!(engine.step(Event::Signal, 1_000), Action::AwaitSignalFor { window_ms: 150 });
    assert_eq!(
        engine.step(Event::Quiet, 1_150),
        Action::Fetch { timeout_ms: 200, skipped: 0 }
    );
    assert!(engine.snapshot().is_empty());
    assert_eq!(engine.step(fetched(b"hello"), 1_160), Action::Publish { content: hello() });
    assert!(engine.snapshot().is_empty());
    assert_eq!(engine.step(Event::Published, 1_170), Action::AwaitSignal);
    assert_eq!(engine.snapshot(), &hello());
    assert_eq!(engine.last_write_ms(), Some(1_170));
}

#[test]
fn scenario_echo_is_suppressed_before_fetch() {
    let mut engine = engine_after_publish(b"hello", 2_000);
    assert_eq!(engine.step(Event::Signal, 2_050), Action::AwaitSignalFor { window_ms: 150 });
    assert_eq!(engine.step(Event::Quiet, 2_200), Action::AwaitSignal);
    assert_eq!(engine.snapshot(), &hello());
    assert_eq!(engine.last_write_ms(), Some(2_000));
}

#[test]
fn scenario_echo_is_suppressed_at_compare() {
    let mut engine = engine_after_publish(b"hello", 2_000);
    assert_eq!(engine.step(Event::Signal, 2_400), Action::AwaitSignalFor { window_ms: 150 });
    assert_eq!(
        engine.step(Event::Quiet, 2_550),
        Action::Fetch { timeout_ms: 200, skipped: 0 }
    );
    assert_eq!(engine.step(fetched(b"hello"), 2_560), Action::AwaitSignal);
    assert_eq!(engine.snapshot(), &hello());
    assert_eq!(engine.last_write_ms(), Some(2_000));
}

#[test]
fn scenario_five_signals_make_one_cycle() {
    let mut engine = SyncEngine::new(Policy::default());
    let mut asked = Vec::new();
    for at in [0u64, 20, 40, 60, 80] {
        asked.push(engine.step(Event::Signal, at));
    }
    asked.push(engine.step(Event::Quiet, 230));
    asked.push(engine.step(fetched(b"hello"), 240));
    asked.push(engine.step(Event::Published, 250));
    let fetches = asked.iter().filter(|a| matches!(a, Action::Fetch { .. })).count();
    let publishes = asked.iter().filter(|a| matches!(a, Action::Publish { .. })).count();
    assert_eq!(fetches, 1);
    assert_eq!(publishes, 1);
    assert_eq!(asked[5], Action::Fetch { timeout_ms: 200, skipped: 4 });
    assert_eq!(asked[7], Action::AwaitSignal);
    assert_eq!(engine.snapshot(), &hello());
}

#[test]
fn scenario_fetch_timeout_skips_the_cycle() {
    let mut engine = engine_after_publish(b"before", 1_000);
    assert_eq!(
        burst_of_one(&mut engine, 5_000),
        Action::Fetch { timeout_ms: 200, skipped: 0 }
    );
    assert_eq!(engine.step(Event::FetchFailed, 5_200), Action::AwaitSignal);
    assert_eq!(engine.snapshot(), &b"before".to_vec());
    assert_eq!(engine.last_write_ms(), Some(1_000));
    assert!(!engine.is_stopped());
    assert_eq!(
        burst_of_one(&mut engine, 6_000),
        Action::Fetch { timeout_ms: 200, skipped: 0 }
    );
    assert_eq!(engine.step(fetched(b"after"), 6_010), Action::Publish { content: b"after".to_vec() });
}

#[test]
fn burst_counts_the_signals_after_the_first() {
    let mut engine = SyncEngine::new(Policy::default());
    engine.step(Event::Signal, 0);
    assert_eq!(engine.step(Event::Quiet, 150), Action::Fetch { timeout_ms: 200, skipped: 0 });
    engine.step(Event::FetchFailed, 160);
    engine.step(Event::Signal, 200);
    engine.step(Event::Signal, 210);
    engine.step(Event::Signal, 220);
    assert_eq!(engine.step(Event::Quiet, 370), Action::Fetch { timeout_ms: 200, skipped: 2 });
}

#[test]
fn every_signal_of_a_burst_restarts_the_debounce_wait() {
    let mut engine = SyncEngine::new(Policy::new(80, 500, 200).expect("valid policy"));
    for at in 0..10u64 {
        assert_eq!(engine.step(Event::Signal, at * 70), Action::AwaitSignalFor { window_ms: 80 });
    }
    assert_eq!(engine.step(Event::Quiet, 710), Action::Fetch { timeout_ms: 200, skipped: 9 });
}

#[test]
fn unchanged_content_is_not_published() {
    let mut engine = engine_after_publish(b"same", 100);
    assert_eq!(burst_of_one(&mut engine, 10_000), Action::Fetch { timeout_ms: 200, skipped: 0 });
    assert_eq!(engine.step(fetched(b"same"), 10_010), Action::AwaitSignal);
    assert_eq!(engine.snapshot(), &b"same".to_vec());
    assert_eq!(engine.last_write_ms(), Some(100));
}

#[test]
fn changed_content_is_published_once_and_becomes_the_snapshot() {
    let mut engine = engine_after_publish(b"old", 100);
    assert_eq!(burst_of_one(&mut engine, 10_000), Action::Fetch { timeout_ms: 200, skipped: 0 });
    assert_eq!(engine.step(fetched(b"new"), 10_010), Action::Publish { content: b"new".to_vec() });
    assert_eq!(engine.snapshot(), &b"old".to_vec());
    assert_eq!(engine.step(Event::Published, 10_020), Action::AwaitSignal);
    assert_eq!(engine.snapshot(), &b"new".to_vec());
    assert_eq!(engine.last_write_ms(), Some(10_020));
}

#[test]
fn content_differing_in_one_byte_or_in_length_is_news() {
    let engine = engine_after_publish(b"hello", 100);
    assert!(engine.is_news(&b"hellp".to_vec()));
    assert!(engine.is_news(&b"hell".to_vec()));
    assert!(engine.is_news(&b"hello!".to_vec()));
    assert!(engine.is_news(&b"Hello".to_vec()));
    assert!(!engine.is_news(&b"hello".to_vec()));
    assert!(!engine.is_news(&Vec::new()));
}

#[test]
fn empty_content_is_never_news() {
    let fresh = SyncEngine::new(Policy::default());
    assert!(!fresh.is_news(&Vec::new()));
    assert!(fresh.is_news(&vec![0u8]));
}

#[test]
fn same_bytes_compares_byte_for_byte() {
    assert!(same_bytes(&Vec::new(), &Vec::new()));
    assert!(same_bytes(&b"hello".to_vec(), &b"hello".to_vec()));
    assert!(!same_bytes(&b"hello".to_vec(), &b"hellO".to_vec()));
    assert!(!same_bytes(&b"hello".to_vec(), &b"hell".to_vec()));
    assert!(!same_bytes(&Vec::new(), &vec![0u8]));
    assert!(!same_bytes(&vec![0u8, 1], &vec![1u8, 0]));
}

#[test]
fn burst_within_the_guard_window_triggers_no_fetch() {
    let mut engine = engine_after_publish(b"hello", 2_000);
    engine.step(Event::Signal, 2_100);
    engine.step(Event::Signal, 2_200);
    assert_eq!(engine.step(Event::Quiet, 2_350), Action::AwaitSignal);
    assert_eq!(engine.action(), Action::AwaitSignal);
}

#[test]
fn guard_window_ends_exactly_at_its_length() {
    let mut inside = engine_after_publish(b"hello", 2_000);
    assert!(inside.is_echo(2_499));
    assert_eq!(burst_of_one(&mut inside, 2_499), Action::AwaitSignal);

    let mut outside = engine_after_publish(b"hello", 2_000);
    assert!(!outside.is_echo(2_500));
    assert_eq!(burst_of_one(&mut outside, 2_500), Action::Fetch { timeout_ms: 200, skipped: 0 });
}

#[test]
fn nothing_is_an_echo_before_the_first_write() {
    let mut engine = SyncEngine::new(Policy::default());
    assert!(!engine.is_echo(0));
    assert!(!engine.is_echo(499));
    assert_eq!(burst_of_one(&mut engine, 0), Action::Fetch { timeout_ms: 200, skipped: 0 });
}

#[test]
fn zero_guard_never_suppresses() {
    let mut engine = SyncEngine::new(Policy::new(0, 0, 200).expect("valid policy"));
    engine.step(Event::Signal, 10);
    engine.step(Event::Quiet, 10);
    engine.step(fetched(b"a"), 10);
    engine.step(Event::Published, 10);
    assert!(!engine.is_echo(10));
    engine.step(Event::Signal, 10);
    assert_eq!(engine.step(Event::Quiet, 10), Action::Fetch { timeout_ms: 200, skipped: 0 });
}

#[test]
fn clock_read_before_the_last_write_counts_as_no_time_passed() {
    let mut engine = engine_after_publish(b"hello", 2_000);
    assert!(engine.is_echo(1_000));
    assert_eq!(burst_of_one(&mut engine, 1_000), Action::AwaitSignal);
}

#[test]
fn empty_fetch_leaves_snapshot_and_time() {
    let mut engine = engine_after_publish(b"kept", 300);
    assert_eq!(burst_of_one(&mut engine, 9_000), Action::Fetch { timeout_ms: 200, skipped: 0 });
    assert_eq!(engine.step(fetched(b""), 9_001), Action::AwaitSignal);
    assert_eq!(engine.snapshot(), &b"kept".to_vec());
    assert_eq!(engine.last_write_ms(), Some(300));
}

#[test]
fn empty_fetch_on_a_fresh_engine_publishes_nothing() {
    let mut engine = SyncEngine::new(Policy::default());
    burst_of_one(&mut engine, 150);
    assert_eq!(engine.step(fetched(b""), 160), Action::AwaitSignal);
    assert!(engine.snapshot().is_empty());
    assert_eq!(engine.last_write_ms(), None);
}

#[test]
fn failed_publish_is_retried_on_the_next_identical_fetch() {
    let mut engine = SyncEngine::new(Policy::default());
    burst_of_one(&mut engine, 150);
    assert_eq!(engine.step(fetched(b"hello"), 160), Action::Publish { content: hello() });
    assert_eq!(engine.step(Event::PublishFailed, 170), Action::AwaitSignal);
    assert!(engine.snapshot().is_empty());
    assert_eq!(engine.last_write_ms(), None);

    assert_eq!(burst_of_one(&mut engine, 400), Action::Fetch { timeout_ms: 200, skipped: 0 });
    assert_eq!(engine.step(fetched(b"hello"), 410), Action::Publish { content: hello() });
    assert_eq!(engine.step(Event::Published, 420), Action::AwaitSignal);
    assert_eq!(engine.snapshot(), &hello());
    assert_eq!(engine.last_write_ms(), Some(420));
}

#[test]
fn failed_publish_keeps_the_earlier_snapshot() {
    let mut engine = engine_after_publish(b"first", 100);
    assert_eq!(burst_of_one(&mut engine, 5_000), Action::Fetch { timeout_ms: 200, skipped: 0 });
    assert_eq!(engine.step(fetched(b"second"), 5_010), Action::Publish { content: b"second".to_vec() });
    assert_eq!(engine.step(Event::PublishFailed, 5_020), Action::AwaitSignal);
    assert_eq!(engine.snapshot(), &b"first".to_vec());
    assert_eq!(engine.last_write_ms(), Some(100));
    assert!(engine.is_news(&b"second".to_vec()));
}

#[test]
fn time_of_last_write_never_moves_backwards() {
    let mut engine = engine_after_publish(b"one", 5_000);
    let mut zero_guard = SyncEngine::new(Policy::new(0, 0, 200).expect("valid policy"));
    zero_guard.step(Event::Signal, 5_000);
    zero_guard.step(Event::Quiet, 5_000);
    zero_guard.step(fetched(b"one"), 5_000);
    zero_guard.step(Event::Published, 5_000);
    zero_guard.step(Event::Signal, 4_000);
    zero_guard.step(Event::Quiet, 4_000);
    assert_eq!(zero_guard.step(fetched(b"two"), 4_000), Action::Publish { content: b"two".to_vec() });
    zero_guard.step(Event::Published, 4_000);
    assert_eq!(zero_guard.snapshot(), &b"two".to_vec());
    assert_eq!(zero_guard.last_write_ms(), Some(5_000));

    burst_of_one(&mut engine, 9_000);
    engine.step(fetched(b"two"), 9_010);
    engine.step(Event::Published, 9_020);
    assert_eq!(engine.last_write_ms(), Some(9_020));
}

#[test]
fn closed_source_stops_a_waiting_engine() {
    let mut engine = SyncEngine::new(Policy::default());
    assert_eq!(engine.step(Event::Closed, 10), Action::Stop);
    assert!(engine.is_stopped());
    assert_eq!(engine.action(), Action::Stop);
}

#[test]
fn closed_source_stops_a_debouncing_engine() {
    let mut engine = SyncEngine::new(Policy::default());
    engine.step(Event::Signal, 10);
    engine.step(Event::Signal, 20);
    assert_eq!(engine.step(Event::Closed, 30), Action::Stop);
    assert!(engine.is_stopped());
}

#[test]
fn stopped_engine_ignores_everything() {
    let mut engine = engine_after_publish(b"last", 100);
    assert_eq!(engine.step(Event::Closed, 1_000), Action::Stop);
    assert_eq!(engine.step(Event::Signal, 2_000), Action::Stop);
    assert_eq!(engine.step(Event::Quiet, 2_150), Action::Stop);
    assert_eq!(engine.step(fetched(b"more"), 2_160), Action::Stop);
    assert_eq!(engine.step(Event::FetchFailed, 2_160), Action::Stop);
    assert_eq!(engine.step(Event::Published, 2_170), Action::Stop);
    assert_eq!(engine.step(Event::PublishFailed, 2_170), Action::Stop);
    assert_eq!(engine.step(Event::Closed, 2_180), Action::Stop);
    assert_eq!(engine.snapshot(), &b"last".to_vec());
    assert_eq!(engine.last_write_ms(), Some(100));
}

#[test]
fn event_that_answers_nothing_is_ignored_while_waiting() {
    let mut engine = engine_after_publish(b"kept", 100);
    assert_eq!(engine.step(Event::Quiet, 9_000), Action::AwaitSignal);
    assert_eq!(engine.step(fetched(b"stray"), 9_000), Action::AwaitSignal);
    assert_eq!(engine.step(Event::FetchFailed, 9_000), Action::AwaitSignal);
    assert_eq!(engine.step(Event::Published, 9_000), Action::AwaitSignal);
    assert_eq!(engine.step(Event::PublishFailed, 9_000), Action::AwaitSignal);
    assert_eq!(engine.snapshot(), &b"kept".to_vec());
    assert_eq!(engine.last_write_ms(), Some(100));
}

#[test]
fn event_that_answers_nothing_is_ignored_while_fetching() {
    let mut engine = SyncEngine::new(Policy::default());
    engine.step(Event::Signal, 0);
    engine.step(Event::Signal, 10);
    let fetch = Action::Fetch { timeout_ms: 200, skipped: 1 };
    assert_eq!(engine.step(Event::Quiet, 160), fetch);
    assert_eq!(engine.step(Event::Signal, 170), fetch);
    assert_eq!(engine.step(Event::Quiet, 170), fetch);
    assert_eq!(engine.step(Event::Closed, 170), fetch);
    assert_eq!(engine.step(Event::Published, 170), fetch);
    assert_eq!(engine.step(Event::PublishFailed, 170), fetch);
    assert!(engine.snapshot().is_empty());
    assert_eq!(engine.last_write_ms(), None);
}

#[test]
fn event_that_answers_nothing_is_ignored_while_publishing() {
    let mut engine = SyncEngine::new(Policy::default());
    burst_of_one(&mut engine, 150);
    let publish = engine.step(fetched(b"hello"), 160);
    assert_eq!(publish, Action::Publish { content: hello() });
    assert_eq!(engine.step(Event::Signal, 170), Action::Publish { content: hello() });
    assert_eq!(engine.step(Event::Quiet, 170), Action::Publish { content: hello() });
    assert_eq!(engine.step(Event::Closed, 170), Action::Publish { content: hello() });
    assert_eq!(engine.step(fetched(b"other"), 170), Action::Publish { content: hello() });
    assert_eq!(engine.step(Event::FetchFailed, 170), Action::Publish { content: hello() });
    assert_eq!(engine.action(), Action::Publish { content: hello() });
    assert_eq!(engine.step(Event::Published, 180), Action::AwaitSignal);
    assert_eq!(engine.snapshot(), &hello());
}

#[test]
fn quiet_without_a_burst_starts_no_fetch() {
    let mut engine = SyncEngine::new(Policy::default());
    assert_eq!(engine.step(Event::Quiet, 150), Action::AwaitSignal);
    assert_eq!(engine.step(Event::Quiet, 300), Action::AwaitSignal);
}

#[test]
fn action_repeats_what_step_returned() {
    let mut engine = SyncEngine::new(Policy::new(10, 20, 30).expect("valid policy"));
    let asked = engine.step(Event::Signal, 0);
    assert_eq!(asked, Action::AwaitSignalFor { window_ms: 10 });
    assert_eq!(engine.action(), asked);
    let asked = engine.step(Event::Quiet, 10);
    assert_eq!(asked, Action::Fetch { timeout_ms: 30, skipped: 0 });
    assert_eq!(engine.action(), asked);
    let asked = engine.step(fetched(&[1, 2, 3]), 11);
    assert_eq!(asked, Action::Publish { content: vec![1, 2, 3] });
    assert_eq!(engine.action(), asked);
}

#[test]
fn binary_content_is_carried_unchanged() {
    let content: Vec<u8> = (0..=255u8).collect();
    let mut engine = SyncEngine::new(Policy::default());
    burst_of_one(&mut engine, 150);
    assert_eq!(
        engine.step(Event::Fetched { content: content.clone() }, 160),
        Action::Publish { content: content.clone() }
    );
    engine.step(Event::Published, 170);
    assert_eq!(engine.snapshot(), &content);
}
