use loadgen::Statistic;
use loadgen::aggregate::{publish, Aggregator};

#[test]
fn publish_copies_and_resets_only_the_window_counter() {
    let mut live = Statistic::new();
    let mut snap = Statistic::new();

    live.record_response(200);
    live.record_response(200);
    publish(&mut live, &mut snap);
    assert_eq!(snap.cps, 2);
    assert_eq!(live.cps, 0);
    assert_eq!(snap.resp_code.get(&200), Some(&2));
    // Cumulative counters carry forward on the live side.
    assert_eq!(live.resp_code.get(&200), Some(&2));

    live.record_response(200);
    live.record_failure(String::from("t| boom"));
    live.record_response(500);
    publish(&mut live, &mut snap);
    // The snapshot window counter holds only the completions since the
    // previous tick, not the cumulative total.
    assert_eq!(snap.cps, 3);
    assert_eq!(snap.resp_code.get(&200), Some(&3));
    assert_eq!(snap.resp_code.get(&500), Some(&1));
    assert_eq!(snap.other_err, 1);
    assert_eq!(snap.recent_errors(), vec![String::from("t| boom")]);
}

#[test]
fn snapshots_are_monotone_across_ticks() {
    let mut live = Statistic::new();
    let mut snap = Statistic::new();
    let mut prev_200: usize = 0;
    let mut prev_err: usize = 0;
    for i in 0..10 {
        live.record_response(200);
        if i % 3 == 0 {
            live.record_failure(format!("t| failure {}", i));
        }
        publish(&mut live, &mut snap);
        let cur_200 = *snap.resp_code.get(&200).unwrap_or(&0);
        assert!(cur_200 >= prev_200);
        assert!(snap.other_err >= prev_err);
        prev_200 = cur_200;
        prev_err = snap.other_err;
    }
}

#[test]
fn grace_period_counts_five_ticks() {
    let mut agg = Aggregator::new();
    // Without a shutdown request the countdown never moves.
    for _ in 0..100 {
        assert!(!agg.observe_tick(false));
    }
    // With it, the aggregator halts on the fifth tick.
    assert!(!agg.observe_tick(true));
    assert!(!agg.observe_tick(true));
    assert!(!agg.observe_tick(true));
    assert!(!agg.observe_tick(true));
    assert!(agg.observe_tick(true));
}

#[test]
fn shutdown_mid_run_drains_into_a_final_snapshot() {
    let mut live = Statistic::new();
    let mut snap = Statistic::new();
    let mut agg = Aggregator::new();

    live.record_response(200);
    assert!(!agg.observe_tick(false));
    publish(&mut live, &mut snap);

    // Shutdown is requested; in-flight completions keep arriving for a
    // while and the grace period flushes them into the snapshot.
    let mut ticks: usize = 0;
    loop {
        if ticks < 2 {
            live.record_response(500);
        }
        if agg.observe_tick(true) {
            break;
        }
        publish(&mut live, &mut snap);
        ticks += 1;
    }
    assert_eq!(ticks, 4);
    // The final snapshot's cumulative counters equal the live ones at the
    // moment the grace period ended.
    assert_eq!(snap.resp_code.get(&200), live.resp_code.get(&200));
    assert_eq!(snap.resp_code.get(&500), live.resp_code.get(&500));
    assert_eq!(snap.other_err, live.other_err);
}
