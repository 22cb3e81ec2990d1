//! The stats stage computation and the coverage-callback support logic.

use fuzzcore::sancov_pcguard::{
    record_edge, record_hitcount, CtxHook, NgramHook, PcTableEntry, EDGES_MAP_DEFAULT_SIZE,
};
use fuzzcore::stats::{CurrentEntryStats, StatsReport, StatsStage};
use fuzzcore::Error;

#[test]
fn stats_first_time_entry_reports_when_due() {
    let mut stage = StatsStage::new(1000, 0);
    let current = Some(CurrentEntryStats {
        scheduled_count: 0,
        is_favored: false,
    });
    let r = stage
        .update_and_report_afl_stats(current, 10, 2, 5000)
        .unwrap();
    assert_eq!(
        r,
        Some(StatsReport {
            pending: 9,
            pend_fav: 10,
            own_finds: 8,
            imported: 2,
        })
    );
}

#[test]
fn stats_favored_entry_counts_toward_pend_fav() {
    let mut stage = StatsStage::new(100, 0);
    let current = Some(CurrentEntryStats {
        scheduled_count: 0,
        is_favored: true,
    });
    let r = stage
        .update_and_report_afl_stats(current, 5, 0, 101 + 1)
        .unwrap();
    assert_eq!(
        r,
        Some(StatsReport {
            pending: 4,
            pend_fav: 4,
            own_finds: 5,
            imported: 0,
        })
    );
}

#[test]
fn stats_rescheduled_entry_contributes_nothing() {
    let mut stage = StatsStage::new(100, 0);
    let current = Some(CurrentEntryStats {
        scheduled_count: 3,
        is_favored: false,
    });
    let r = stage
        .update_and_report_afl_stats(current, 10, 0, 100000)
        .unwrap();
    assert_eq!(r, None);
}

#[test]
fn stats_without_entry_is_illegal_state() {
    let mut stage = StatsStage::new(100, 0);
    let r = stage.update_and_report_afl_stats(None, 10, 0, 100000);
    assert_eq!(r, Err(Error::IllegalState));
}

#[test]
fn stats_respects_report_interval() {
    let mut stage = StatsStage::new(10_000, 0);
    let current = Some(CurrentEntryStats {
        scheduled_count: 0,
        is_favored: false,
    });
    // within the interval since the last report: counted but not reported
    let r = stage
        .update_and_report_afl_stats(current, 10, 0, 500)
        .unwrap();
    assert_eq!(r, None);
    // later, past the interval, the next first-time entry triggers a report
    let r = stage
        .update_and_report_afl_stats(current, 10, 0, 20_000)
        .unwrap();
    assert_eq!(
        r,
        Some(StatsReport {
            pending: 8,
            pend_fav: 10,
            own_finds: 10,
            imported: 0,
        })
    );
    // immediately afterwards the clock was noted: no second report
    let r = stage
        .update_and_report_afl_stats(current, 10, 0, 20_001)
        .unwrap();
    assert_eq!(r, None);
}

#[test]
fn stats_first_report_waits_from_construction() {
    // constructed at clock 5000 with a 1000 ms interval: a first-time
    // entry within the interval is counted but not yet reported
    let mut stage = StatsStage::new(1000, 5000);
    let current = Some(CurrentEntryStats {
        scheduled_count: 0,
        is_favored: false,
    });
    let r = stage
        .update_and_report_afl_stats(current, 10, 0, 5500)
        .unwrap();
    assert_eq!(r, None);
    let r = stage
        .update_and_report_afl_stats(current, 10, 0, 6001)
        .unwrap();
    assert!(r.is_some());
}

#[test]
fn stats_stage_restart_semantics() {
    let mut stage = StatsStage::default();
    assert_eq!(stage.should_restart(), Ok(true));
    assert_eq!(stage.clear_progress(), Ok(()));
}

#[test]
fn ngram4_update_rotates_shifts_and_reduces() {
    let mut hook = NgramHook::new();
    let r = hook.update_ngram4(5);
    assert_eq!(r, 5);
    assert_eq!(hook.prev_array_4, [5, 0, 0, 0]);
    let r = hook.update_ngram4(7);
    assert_eq!(hook.prev_array_4, [7, 10, 0, 0]);
    assert_eq!(r, 7 ^ 10);
    let r = hook.update_ngram4(1);
    assert_eq!(hook.prev_array_4, [1, 14, 20, 0]);
    assert_eq!(r, 1 ^ 14 ^ 20);
    // reduced position always lands inside the edge map
    let r = hook.update_ngram4(u32::MAX);
    assert!(r < EDGES_MAP_DEFAULT_SIZE);
}

#[test]
fn ngram8_update_rotates_shifts_and_reduces() {
    let mut hook = NgramHook::new();
    let r = hook.update_ngram8(3);
    assert_eq!(r, 3);
    assert_eq!(hook.prev_array_8, [3, 0, 0, 0, 0, 0, 0, 0]);
    let r = hook.update_ngram8(9);
    assert_eq!(hook.prev_array_8, [9, 6, 0, 0, 0, 0, 0, 0]);
    assert_eq!(r, 9 ^ 6);
}

#[test]
fn ngram_pre_exec_resets_history() {
    let mut hook = NgramHook::new();
    hook.update_ngram4(11);
    hook.update_ngram8(13);
    hook.pre_exec();
    assert_eq!(hook.prev_array_4, [0; 4]);
    assert_eq!(hook.prev_array_8, [0; 8]);
}

#[test]
fn ctx_hook_reset_value() {
    assert_eq!(CtxHook::new().reset_value, 0);
    assert_eq!(CtxHook::default().reset_value, 0);
}

#[test]
fn edge_recording() {
    let mut edges = vec![0u8; 8];
    record_edge(&mut edges, 3);
    assert_eq!(edges, vec![0, 0, 0, 1, 0, 0, 0, 0]);
    record_edge(&mut edges, 3);
    assert_eq!(edges[3], 1);
}

#[test]
fn hitcount_recording_wraps() {
    let mut edges = vec![0u8; 4];
    record_hitcount(&mut edges, 1);
    record_hitcount(&mut edges, 1);
    assert_eq!(edges, vec![0, 2, 0, 0]);
    edges[2] = 255;
    record_hitcount(&mut edges, 2);
    assert_eq!(edges[2], 0);
}

#[test]
fn pc_table_entry_flags() {
    let entry = PcTableEntry::new(0x4010, 1);
    assert!(entry.is_function_entry());
    assert_eq!(entry.addr(), 0x4010);
    let plain = PcTableEntry::new(0x5020, 0);
    assert!(!plain.is_function_entry());
    assert_eq!(plain.addr(), 0x5020);
}
