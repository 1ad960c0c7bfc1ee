use rand::Rng;
use run_telemetry::accumulator::YieldSummary;
use run_telemetry::acquisition::Acquisition;
use run_telemetry::statistics::Statistics;
use run_telemetry::store::RunStateStore;

fn monotone_fields(s: &YieldSummary) -> [u64; 12] {
    [
        s.read_count,
        s.basecalled_pass_read_count,
        s.basecalled_fail_read_count,
        s.basecalled_skipped_read_count,
        s.basecalled_pass_bases,
        s.selected_events,
        s.estimated_selected_bases,
        s.alignment_matches,
        s.alignment_mismatches,
        s.alignment_insertions,
        s.alignment_deletions,
        s.alignment_coverage_twentieths,
    ]
}

#[test]
fn fresh_accumulator_is_zeroed() {
    let s = YieldSummary::new();
    assert_eq!(monotone_fields(&s), [0; 12]);
    assert_eq!(s.fraction_basecalled_numerator, 0);
    assert_eq!(s.fraction_skipped_numerator, 0);
    assert_eq!(s.basecalled_fail_bases, 0);
    assert_eq!(s.basecalled_samples, 0);
    assert_eq!(s.selected_raw_samples, 0);
    assert!(s.headroom());
}

#[test]
fn scenario_three_draws() {
    let mut s = YieldSummary::new();

    s.tick(95);
    assert_eq!(s.read_count, 1);
    assert_eq!(s.fraction_basecalled_numerator, 95);
    assert_eq!(s.fraction_skipped_numerator, 6);
    assert_eq!(s.selected_events, 95 * 101);
    assert_eq!(s.estimated_selected_bases, 95 * 101);
    assert_eq!(s.alignment_matches, 95 * 101);
    assert_eq!(s.alignment_coverage_twentieths, 1);
    assert_eq!(s.basecalled_pass_read_count, 1);
    assert_eq!(s.basecalled_pass_bases, 95 * 101);

    s.tick(91);
    assert_eq!(s.read_count, 2);
    assert_eq!(s.basecalled_fail_read_count, 1);
    assert_eq!(s.basecalled_fail_bases, 91 * 101);
    assert_eq!(s.alignment_mismatches, 91 * 11);
    assert_eq!(s.alignment_coverage_twentieths, 2);

    s.tick(93);
    assert_eq!(s.read_count, 3);
    assert_eq!(s.basecalled_pass_read_count, 2);
    assert_eq!(s.basecalled_pass_bases, 95 * 101 + 93 * 101);
    assert_eq!(s.alignment_deletions, 93 * 11);
    assert_eq!(s.alignment_coverage_twentieths, 3);
    assert_eq!(s.basecalled_samples, 1);
    assert_eq!(s.selected_raw_samples, 1);
}

#[test]
fn quiet_draw_changes_only_pins() {
    let mut s = YieldSummary::new();
    s.tick(42);
    assert_eq!(s.read_count, 0);
    assert_eq!(s.fraction_basecalled_numerator, 0);
    assert_eq!(s.basecalled_samples, 1);
    assert_eq!(s.selected_raw_samples, 1);
    assert_eq!(s.alignment_coverage_twentieths, 0);
}

#[test]
fn skipped_draw_counts_twice() {
    let mut s = YieldSummary::new();
    s.tick(92);
    assert_eq!(s.basecalled_skipped_read_count, 2);
    assert_eq!(s.alignment_insertions, 92 * 11);
    assert_eq!(s.read_count, 1);
    assert_eq!(s.fraction_basecalled_numerator, 92);
    assert_eq!(s.fraction_skipped_numerator, 9);
}

#[test]
fn coverage_never_exceeds_cap() {
    let mut s = YieldSummary::new();
    let mut rng = rand::thread_rng();
    for _ in 0..10_000 {
        let draw: u8 = rng.gen_range(0..100);
        s.tick(draw);
        assert!(s.alignment_coverage_twentieths <= 18);
    }
    // Ten thousand ticks hold far more than eighteen qualifying draws, so the
    // cap itself is reached with overwhelming likelihood; the bound above is
    // the property under test either way.
}

#[test]
fn monotone_fields_never_decrease() {
    let mut s = YieldSummary::new();
    let mut rng = rand::thread_rng();
    let mut prev = monotone_fields(&s);
    for _ in 0..2_000 {
        let draw: u8 = rng.gen_range(0..100);
        s.tick(draw);
        let next = monotone_fields(&s);
        for i in 0..12 {
            assert!(prev[i] <= next[i]);
        }
        prev = next;
    }
}

#[test]
fn fail_bases_overwritten_not_accumulated() {
    let mut s = YieldSummary::new();
    s.tick(91);
    assert_eq!(s.basecalled_fail_bases, 91 * 101);
    s.tick(91);
    // A second qualifying tick overwrites: the field holds one contribution,
    // while the sibling read counter has accumulated both.
    assert_eq!(s.basecalled_fail_bases, 91 * 101);
    assert_eq!(s.basecalled_fail_read_count, 2);
    s.tick(95);
    assert_eq!(s.basecalled_fail_bases, 91 * 101);
}

#[test]
fn pin_fields_stay_at_one() {
    let mut s = YieldSummary::new();
    for draw in [0u8, 91, 92, 93, 95, 99, 50] {
        s.tick(draw);
        assert_eq!(s.basecalled_samples, 1);
        assert_eq!(s.selected_raw_samples, 1);
    }
}

#[test]
fn store_creates_runs_lazily() {
    let mut store = RunStateStore::new();
    let a = String::from("run-a");
    assert!(store.peek(&a).is_none());
    let snap = store.apply_tick(&a, 95);
    assert_eq!(snap.read_count, 1);
    let peeked = store.peek(&a).expect("run exists after a tick");
    assert_eq!(peeked, snap);
}

#[test]
fn peek_does_not_advance() {
    let mut store = RunStateStore::new();
    let a = String::from("run-a");
    let snap = store.apply_tick(&a, 91);
    let first = store.peek(&a).expect("known run");
    let second = store.peek(&a).expect("known run");
    assert_eq!(first, snap);
    assert_eq!(second, snap);
}

#[test]
fn isolation_across_runs() {
    let mut store = RunStateStore::new();
    let a = String::from("run-a");
    let b = String::from("run-b");
    let snap_b = store.apply_tick(&b, 93);
    for draw in [95u8, 91, 92, 99] {
        store.apply_tick(&a, draw);
        let still_b = store.peek(&b).expect("run-b stays known");
        assert_eq!(still_b, snap_b);
    }
    assert!(store.peek(&String::from("run-c")).is_none());
}

#[test]
fn random_tick_advances_within_rule() {
    let mut store = RunStateStore::new();
    let a = String::from("run-a");
    let mut prev_read_count: u64 = 0;
    for _ in 0..200 {
        assert!(store.has_headroom(&a));
        let snap = store.tick_and_snapshot(&a);
        // Whatever the hidden draw was, it was below 100, so one tick obeys
        // the rule's bounds: reads grow by at most one, a recomputed fraction
        // names the draw itself, and the pins hold.
        assert!(snap.read_count == prev_read_count || snap.read_count == prev_read_count + 1);
        assert!(snap.fraction_basecalled_numerator <= 99);
        if snap.read_count == prev_read_count + 1 {
            assert!(snap.fraction_basecalled_numerator > 90);
            assert_eq!(
                snap.fraction_skipped_numerator,
                101 - snap.fraction_basecalled_numerator
            );
        }
        assert_eq!(snap.basecalled_samples, 1);
        assert_eq!(snap.selected_raw_samples, 1);
        assert!(snap.alignment_coverage_twentieths <= 18);
        assert_eq!(store.peek(&a).expect("known run"), snap);
        prev_read_count = snap.read_count;
    }
}

#[test]
fn concurrent_ticks_lose_no_update() {
    let runtime = tokio::runtime::Builder::new_multi_thread()
        .worker_threads(4)
        .build()
        .expect("runtime");
    let store = std::sync::Arc::new(tokio::sync::Mutex::new(RunStateStore::new()));
    let tasks: usize = 8;
    let ticks_per_task: usize = 50;
    runtime.block_on(async {
        let mut handles = Vec::new();
        for _ in 0..tasks {
            let store = std::sync::Arc::clone(&store);
            handles.push(tokio::spawn(async move {
                let id = String::from("shared-run");
                for _ in 0..ticks_per_task {
                    let mut guard = store.lock().await;
                    guard.apply_tick(&id, 95);
                }
            }));
        }
        for handle in handles {
            handle.await.expect("task");
        }
    });
    let final_snap = runtime.block_on(async {
        store.lock().await.peek(&String::from("shared-run")).expect("run exists")
    });
    // Every draw of 95 adds exactly one read and one passing read: any serial
    // order of the 400 ticks yields the same totals, so a lost or torn update
    // would show up here.
    let total = (tasks * ticks_per_task) as u64;
    assert_eq!(final_snap.read_count, total);
    assert_eq!(final_snap.basecalled_pass_read_count, total);
    assert_eq!(final_snap.basecalled_pass_bases, total * 95 * 101);
    assert_eq!(final_snap.alignment_matches, total * 95 * 101);
    assert_eq!(final_snap.alignment_coverage_twentieths, 18);
    assert_eq!(final_snap.basecalled_samples, 1);
}

#[test]
fn acquisition_fixed_responses() {
    let service = Acquisition::new(String::from("run-x"));
    assert_eq!(service.current_status().status, 3);
    let progress = service.get_progress().raw_per_channel.expect("always present");
    assert_eq!(progress.acquired, 100);
    assert_eq!(progress.processed, 900);
}

#[test]
fn watch_stream_item_is_placeholder() {
    let service = Acquisition::new(String::from("run-x"));
    let info = service.watch_current_acquisition_run();
    assert_eq!(info.run_id, "Wowee");
    assert_eq!(info.startup_state, 0);
    assert_eq!(info.state, 0);
    assert_eq!(info.finishing_state, 0);
    assert_eq!(info.stop_reason, 0);
    assert!(info.yield_summary.is_none());
}

#[test]
fn get_current_run_drives_progress() {
    let mut service = Acquisition::new(String::from("run-x"));
    for _ in 0..50 {
        assert!(service.can_advance());
        let info = service.get_current_acquisition_run();
        assert_eq!(info.run_id, "run-x");
        assert_eq!(info.state, 0);
        let snap = info.yield_summary.expect("unary get always carries a snapshot");
        assert_eq!(snap.basecalled_samples, 1);
        assert!(snap.alignment_coverage_twentieths <= 18);
    }
}

#[test]
fn histogram_snapshot_is_fixed() {
    let service = Statistics::new(4);
    let r = service.stream_read_length_histogram();
    assert_eq!(r.read_length_type, 1);
    assert_eq!(r.bucket_ranges.len(), 3);
    assert_eq!((r.bucket_ranges[0].start, r.bucket_ranges[0].end), (0, 128));
    assert_eq!((r.bucket_ranges[1].start, r.bucket_ranges[1].end), (128, 256));
    assert_eq!((r.bucket_ranges[2].start, r.bucket_ranges[2].end), (256, 354));
    assert_eq!(r.source_data_end, 100);
    assert_eq!(r.bucket_value_type, 2);
    assert!(r.histogram_data.is_empty());
}
