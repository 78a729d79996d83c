use loadgen::Statistic;
use loadgen::engine::{
    can_record_outcome, record_outcome, record_probe, worker_decide, RequestOutcome,
    ShutdownFlag, WorkerAction,
};
use loadgen::aggregate::publish;
use loadgen::limiter::RateLimiter;

#[test]
fn worker_exits_only_on_the_shutdown_flag() {
    assert!(matches!(worker_decide(false), WorkerAction::Request));
    assert!(matches!(worker_decide(true), WorkerAction::Exit));
}

#[test]
fn shutdown_request_is_idempotent() {
    let mut flag = ShutdownFlag::new();
    assert!(!flag.is_stopped());
    flag.request();
    assert!(flag.is_stopped());
    flag.request();
    assert!(flag.is_stopped());
}

#[test]
fn outcomes_are_recorded_by_kind() {
    let mut s = Statistic::new();
    let ok = RequestOutcome::Response(404);
    assert!(can_record_outcome(&s, &ok));
    record_outcome(&mut s, ok);
    // An error-range status is a successful completion for the engine.
    assert_eq!(s.resp_code.get(&404), Some(&1));
    assert_eq!(s.other_err, 0);
    assert_eq!(s.cps, 1);

    let failed = RequestOutcome::TransportError(String::from("connection reset"));
    assert!(can_record_outcome(&s, &failed));
    record_outcome(&mut s, failed);
    assert_eq!(s.other_err, 1);
    assert_eq!(s.cps, 2);
    let log = s.recent_errors();
    assert_eq!(log.len(), 1);
    // The record is a wall-clock timestamp, the separator, the message.
    assert!(log[0].ends_with("| connection reset"));
}

#[test]
fn probe_success_is_recorded_and_run_proceeds() {
    let mut s = Statistic::new();
    let r = record_probe(&mut s, RequestOutcome::Response(503));
    assert!(r.is_ok());
    assert_eq!(s.resp_code.get(&503), Some(&1));
    assert_eq!(s.cps, 1);
}

#[test]
fn unreachable_target_fails_fast_and_publishes_nothing() {
    let mut live = Statistic::new();
    let snap = Statistic::new();
    let r = record_probe(
        &mut live,
        RequestOutcome::TransportError(String::from("connect error")),
    );
    assert_eq!(r, Err(String::from("connect error")));
    // Nothing was recorded and no snapshot with nonzero counters exists.
    assert!(live.resp_code.is_empty());
    assert_eq!(live.other_err, 0);
    assert_eq!(live.cps, 0);
    assert!(snap.resp_code.is_empty());
}

#[test]
fn steady_run_at_rate_ten() {
    // Rate 10, four workers, the target always answers 200: after three
    // windows the published counters hold the probe plus thirty responses.
    let mut live = Statistic::new();
    let mut snap = Statistic::new();
    let mut limiter = RateLimiter::new(Some(10));

    assert!(record_probe(&mut live, RequestOutcome::Response(200)).is_ok());

    for _ in 0..3 {
        limiter.refill();
        let mut admitted: usize = 0;
        // Four workers keep asking for admission until the window is dry.
        'window: loop {
            for _ in 0..4 {
                if limiter.try_acquire() {
                    record_outcome(&mut live, RequestOutcome::Response(200));
                    admitted += 1;
                } else {
                    break 'window;
                }
            }
        }
        assert_eq!(admitted, 10);
        publish(&mut live, &mut snap);
    }

    assert_eq!(snap.resp_code.get(&200), Some(&31));
    assert_eq!(snap.other_err, 0);
}

#[test]
fn unlimited_run_with_mixed_statuses() {
    // No rate, eight workers, the target answers a mix of 200 and 500:
    // the published counters eventually hold both codes.
    let mut live = Statistic::new();
    let mut snap = Statistic::new();
    let mut limiter = RateLimiter::new(None);

    for round in 0..5 {
        for worker in 0..8 {
            assert!(limiter.try_acquire());
            let code = if (round + worker) % 2 == 0 { 200 } else { 500 };
            record_outcome(&mut live, RequestOutcome::Response(code));
        }
        publish(&mut live, &mut snap);
        assert!(snap.cps <= 8);
    }

    assert!(*snap.resp_code.get(&200).unwrap() > 0);
    assert!(*snap.resp_code.get(&500).unwrap() > 0);
    assert_eq!(
        snap.resp_code.get(&200).unwrap() + snap.resp_code.get(&500).unwrap(),
        40
    );
}
