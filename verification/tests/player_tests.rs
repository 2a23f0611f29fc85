use plaza_tui::player::{
    output_has_room, FeederState, LoopDecision, Reconnect, SessionEnd, StreamMode,
    INITIAL_BACKOFF_MS, MAX_BACKOFF_MS, MAX_QUEUED_BUFFERS,
};
use plaza_tui::socket::{
    count_from, feed_step, listeners_event, next_socket_backoff, reactions_event, FeedStep, SocketEvent,
};
use plaza_tui::pcm::PcmError;

#[test]
fn live_mode_retries_with_doubling_backoff() {
    let mut r = Reconnect::new();
    let mut waits = Vec::new();
    for _ in 0..7 {
        match r.after(StreamMode::Live, SessionEnd::Ended) {
            LoopDecision::RetryAfter(ms) => waits.push(ms),
            other => panic!("expected a retry, got {other:?}"),
        }
    }
    assert_eq!(waits, vec![200, 400, 800, 1600, 3200, 5000, 5000]);
    r.on_open();
    assert_eq!(r.backoff_ms, INITIAL_BACKOFF_MS);
    assert_eq!(MAX_BACKOFF_MS, 5000);
}

#[test]
fn oneshot_mode_does_not_retry() {
    let mut r = Reconnect::new();
    assert!(matches!(r.after(StreamMode::OneShot, SessionEnd::Ended), LoopDecision::Exit));
    assert_eq!(r.backoff_ms, INITIAL_BACKOFF_MS);
}

#[test]
fn permanent_failure_is_reported_and_not_retried() {
    for mode in [StreamMode::Live, StreamMode::OneShot] {
        let mut r = Reconnect::new();
        match r.after(mode, SessionEnd::Permanent("unsupported codec".into())) {
            LoopDecision::ReportAndExit(m) => assert_eq!(m, "unsupported codec"),
            other => panic!("expected a report, got {other:?}"),
        }
    }
}

#[test]
fn stop_exits_quietly() {
    let mut r = Reconnect::new();
    assert!(matches!(r.after(StreamMode::Live, SessionEnd::Stopped), LoopDecision::Exit));
}

#[test]
fn feeder_batches_a_tenth_of_a_second() {
    let mut f = FeederState::new();
    let p = f.on_chunk(48_000, 2, 4_000);
    assert!(!p.flush_first && !p.batch_ready);
    let p = f.on_chunk(48_000, 2, 5_600);
    assert!(!p.flush_first && p.batch_ready);
    f.on_flushed();
    assert_eq!(f.pending, 0);
    let p = f.on_chunk(44_100, 2, 10);
    assert!(!p.flush_first, "nothing pending, nothing to flush");
    let p = f.on_chunk(48_000, 1, 10);
    assert!(p.flush_first, "a format change flushes what is pending");
    assert_eq!(f.pending, 10);
    let p = f.on_chunk(5, 0, 1);
    assert!(p.flush_first && p.batch_ready, "the threshold is at least one sample");
}

#[test]
fn output_backpressure() {
    assert_eq!(MAX_QUEUED_BUFFERS, 8);
    assert!(output_has_room(7));
    assert!(!output_has_room(8));
}

#[test]
fn pcm_error_messages() {
    assert_eq!(PcmError::Ended.message(), "stream ended");
    assert_eq!(PcmError::Permanent("bad".into()).message(), "bad");
}

#[test]
fn socket_backoff_doubles_to_thirty_seconds() {
    let mut b = 1;
    let mut seen = Vec::new();
    for _ in 0..7 {
        b = next_socket_backoff(b);
        seen.push(b);
    }
    assert_eq!(seen, vec![2, 4, 8, 16, 30, 30, 30]);
}

#[test]
fn socket_counts() {
    assert_eq!(count_from(Some(12)), Some(12));
    assert_eq!(count_from(None), None);
    assert!(matches!(listeners_event(Some(1337)), Some(SocketEvent::Listeners(1337))));
    assert!(matches!(reactions_event(Some(42)), Some(SocketEvent::Reactions(42))));
    assert!(listeners_event(None).is_none());
}

#[test]
fn feed_resets_its_delay_on_connect_and_doubles_it_on_failure() {
    assert_eq!(feed_step(true, 16), FeedStep::Stay { backoff_secs: 1 });
    assert_eq!(feed_step(false, 1), FeedStep::Retry { wait_secs: 1, backoff_secs: 2 });
    assert_eq!(feed_step(false, 16), FeedStep::Retry { wait_secs: 16, backoff_secs: 30 });
    assert_eq!(feed_step(false, 30), FeedStep::Retry { wait_secs: 30, backoff_secs: 30 });
}
