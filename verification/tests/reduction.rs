//! The reduction pass: loop-counter discarding, wrap tolerance, and the
//! dual-run filing of values and headers.

use fuzzcore::cmp::{AFLppCmpLogHeader, CmpMap, CmpValues, StdCmpMap};
use fuzzcore::observers::{
    AFLppCmpValuesMetadata, CmpObserver, CmpObserverMetadata, CmpValuesMetadata, StdCmpObserver,
};
use fuzzcore::ExitKind;

fn log_pairs(map: &mut StdCmpMap, site: usize, pairs: &[(u64, u64)]) {
    for &(a, b) in pairs {
        map.log(site, CmpValues::U64((a, b)));
    }
}

#[test]
fn reduction_discards_monotonic_site() {
    let mut map = StdCmpMap::with_sites(1);
    log_pairs(&mut map, 0, &[(1, 2), (2, 2), (3, 2), (4, 2), (5, 2)]);
    let mut meta = CmpValuesMetadata::new();
    meta.add_from(1, &map, &false);
    assert!(meta.list.is_empty());
}

#[test]
fn reduction_keeps_random_site_in_full() {
    let pairs = [(9, 1), (2, 7), (100, 3), (5, 5), (42, 0)];
    let mut map = StdCmpMap::with_sites(1);
    log_pairs(&mut map, 0, &pairs);
    let mut meta = CmpValuesMetadata::new();
    meta.add_from(1, &map, &false);
    let expected: Vec<CmpValues> = pairs.iter().map(|&p| CmpValues::U64(p)).collect();
    assert_eq!(meta.list, expected);
}

#[test]
fn reduction_end_to_end_two_sites() {
    let mut map = StdCmpMap::with_sites(2);
    log_pairs(&mut map, 0, &[(1, 2), (2, 2), (3, 2), (4, 2), (5, 2)]);
    log_pairs(&mut map, 1, &[(9, 1), (2, 7), (100, 3)]);
    let mut meta = CmpValuesMetadata::new();
    meta.add_from(2, &map, &false);
    assert_eq!(
        meta.list,
        vec![
            CmpValues::U64((9, 1)),
            CmpValues::U64((2, 7)),
            CmpValues::U64((100, 3)),
        ]
    );
}

#[test]
fn reduction_is_idempotent() {
    let mut map = StdCmpMap::with_sites(2);
    log_pairs(&mut map, 0, &[(1, 2), (2, 2), (3, 2), (4, 2), (5, 2)]);
    log_pairs(&mut map, 1, &[(9, 1), (2, 7), (100, 3)]);
    let mut meta = CmpValuesMetadata::new();
    meta.add_from(2, &map, &false);
    let first = meta.list.clone();
    meta.add_from(2, &map, &false);
    // same ordered list, not accumulated
    assert_eq!(meta.list, first);
    assert_eq!(meta.list.len(), 3);
}

#[test]
fn reduction_tolerates_one_wrap() {
    // a monotonic run of 8 whose ring wrapped once: 8 9 10 3 4 5 6 7 has
    // exactly one non-monotonic transition and 6 == execs - 2 monotonic ones
    let v0 = [8u64, 9, 10, 3, 4, 5, 6, 7];
    let mut map = StdCmpMap::with_sites(1);
    for &v in &v0 {
        map.log(0, CmpValues::U64((v, 1000)));
    }
    let mut meta = CmpValuesMetadata::new();
    meta.add_from(1, &map, &false);
    assert!(meta.list.is_empty());
}

#[test]
fn reduction_decreasing_operand_discards() {
    let mut map = StdCmpMap::with_sites(1);
    log_pairs(&mut map, 0, &[(7, 9), (7, 8), (7, 7), (7, 6), (7, 5), (7, 4)]);
    let mut meta = CmpValuesMetadata::new();
    meta.add_from(1, &map, &false);
    assert!(meta.list.is_empty());
}

#[test]
fn reduction_short_monotonic_site_is_kept() {
    // no loop detection at 4 or fewer logged executions
    let pairs = [(1, 2), (2, 2), (3, 2), (4, 2)];
    let mut map = StdCmpMap::with_sites(1);
    log_pairs(&mut map, 0, &pairs);
    let mut meta = CmpValuesMetadata::new();
    meta.add_from(1, &map, &false);
    assert_eq!(meta.list.len(), 4);
}

#[test]
fn reduction_skips_sites_without_logs() {
    let mut map = StdCmpMap::with_sites(3);
    log_pairs(&mut map, 1, &[(3, 4), (8, 1), (2, 2)]);
    let mut meta = CmpValuesMetadata::new();
    meta.add_from(3, &map, &false);
    assert_eq!(meta.list.len(), 3);
}

#[test]
fn reduction_bytes_pairs_break_runs_but_are_kept() {
    // numeric values step monotonically, but a byte-string pair in the
    // middle consumes the "last" slot without being comparable, so only 3
    // of the 5 transitions count and the site is retained
    let b = sample_bytes();
    let mut map = StdCmpMap::with_sites(1);
    map.log(0, CmpValues::U64((1, 0)));
    map.log(0, CmpValues::U64((2, 0)));
    map.log(0, CmpValues::Bytes((b, b)));
    map.log(0, CmpValues::U64((4, 0)));
    map.log(0, CmpValues::U64((5, 0)));
    map.log(0, CmpValues::U64((6, 0)));
    let mut meta = CmpValuesMetadata::new();
    meta.add_from(1, &map, &false);
    assert_eq!(meta.list.len(), 6);
}

fn sample_bytes() -> fuzzcore::cmp::CmplogBytes {
    fuzzcore::cmp::CmplogBytes::from_buf_and_len([0x41; 32], 3)
}

#[test]
fn reduction_of_empty_map_is_empty() {
    let map = StdCmpMap::with_sites(0);
    assert!(map.is_empty());
    let mut meta = CmpValuesMetadata::new();
    meta.add_from(0, &map, &false);
    assert!(meta.list.is_empty());
}

#[test]
fn reduction_with_zero_usable_count_walks_nothing() {
    let mut map = StdCmpMap::with_sites(2);
    log_pairs(&mut map, 0, &[(1, 2)]);
    let mut meta = CmpValuesMetadata::new();
    meta.add_from(0, &map, &false);
    assert!(meta.list.is_empty());
}

#[test]
fn map_reset_clears_everything() {
    let mut map = StdCmpMap::with_sites(2);
    log_pairs(&mut map, 0, &[(1, 2), (3, 4)]);
    assert_eq!(map.usable_executions_for(0), 2);
    assert_eq!(map.executions_for(0), 2);
    map.reset().unwrap();
    assert_eq!(map.len(), 2);
    assert_eq!(map.usable_executions_for(0), 0);
    assert_eq!(map.executions_for(0), 0);
    assert!(!map.is_empty());
}

#[test]
fn map_ring_caps_usable_executions() {
    let mut map = StdCmpMap::with_sites(1);
    for i in 0..40u64 {
        map.log(0, CmpValues::U64((i, i)));
    }
    assert_eq!(map.executions_for(0), 40);
    assert_eq!(map.usable_executions_for(0), 32);
}

#[test]
fn dual_metadata_files_per_site_and_run() {
    let mut map = StdCmpMap::with_sites(2);
    log_pairs(&mut map, 0, &[(1, 2), (2, 2), (3, 2), (4, 2), (5, 2)]);
    log_pairs(&mut map, 1, &[(9, 1), (2, 7)]);
    map.set_header(0, AFLppCmpLogHeader::new([0x05, 0x00]));
    map.set_header(1, AFLppCmpLogHeader::new([0x02, 0x10]));

    let mut meta = AFLppCmpValuesMetadata::new();
    // original run: filed under orig_cmpvals, with no loop filtering
    meta.add_from(2, &map, &true);
    let orig0 = meta.orig_cmpvals().get(0).expect("site 0 filed").clone();
    assert_eq!(orig0.len(), 5);
    assert_eq!(orig0[0], CmpValues::U64((1, 2)));
    let orig1 = meta.orig_cmpvals().get(1).expect("site 1 filed").clone();
    assert_eq!(
        orig1,
        vec![CmpValues::U64((9, 1)), CmpValues::U64((2, 7))]
    );
    assert!(meta.new_cmpvals().get(0).is_none());
    assert_eq!(meta.headers().len(), 2);
    assert_eq!(meta.headers()[0].0, 0);
    assert_eq!(meta.headers()[0].1.hits(), 5);
    assert_eq!(meta.headers()[1].0, 1);
    assert_eq!(meta.headers()[1].1.attribute(), 1);

    // mutated run: filed under new_cmpvals, orig left alone, headers replaced
    let mut map2 = StdCmpMap::with_sites(2);
    log_pairs(&mut map2, 1, &[(5, 5)]);
    map2.set_header(1, AFLppCmpLogHeader::new([0x01, 0x00]));
    meta.add_from(2, &map2, &false);
    assert_eq!(meta.orig_cmpvals().get(0).unwrap().len(), 5);
    assert_eq!(
        meta.new_cmpvals().get(1).unwrap().clone(),
        vec![CmpValues::U64((5, 5))]
    );
    assert!(meta.new_cmpvals().get(0).is_none());
    assert_eq!(meta.headers().len(), 1);
    assert_eq!(meta.headers()[0].0, 1);
}

#[test]
fn observer_reduces_into_metadata_slot() {
    let mut map = StdCmpMap::with_sites(2);
    log_pairs(&mut map, 0, &[(1, 2), (2, 2), (3, 2), (4, 2), (5, 2)]);
    log_pairs(&mut map, 1, &[(9, 1), (2, 7), (100, 3)]);
    let observer: StdCmpObserver<StdCmpMap, CmpValuesMetadata> =
        StdCmpObserver::new("cmplog", map, true);
    assert_eq!(observer.usable_count(), 2);
    assert_eq!(observer.name().as_str(), "cmplog");

    let mut slot: Option<CmpValuesMetadata> = None;
    observer
        .post_exec(&mut slot, &ExitKind::Normal)
        .unwrap();
    let meta = slot.expect("metadata created on first use");
    assert_eq!(meta.list.len(), 3);
    assert_eq!(meta.list[0], CmpValues::U64((9, 1)));
}

#[test]
fn observer_without_add_meta_leaves_slot_alone() {
    let mut map = StdCmpMap::with_sites(1);
    log_pairs(&mut map, 0, &[(1, 1)]);
    let observer: StdCmpObserver<StdCmpMap, CmpValuesMetadata> =
        StdCmpObserver::new("cmplog", map, false);
    let mut slot: Option<CmpValuesMetadata> = None;
    observer.post_exec(&mut slot, &ExitKind::Crash).unwrap();
    assert!(slot.is_none());
}

#[test]
fn observer_with_size_caps_usable_count() {
    let mut map = StdCmpMap::with_sites(4);
    log_pairs(&mut map, 0, &[(1, 9)]);
    log_pairs(&mut map, 3, &[(7, 7)]);
    let observer: StdCmpObserver<StdCmpMap, CmpValuesMetadata> =
        StdCmpObserver::with_size("cmplog", map, true, 2);
    assert_eq!(observer.usable_count(), 2);
    let mut slot: Option<CmpValuesMetadata> = None;
    observer.post_exec(&mut slot, &ExitKind::Normal).unwrap();
    // only sites 0 and 1 are walked; site 3's value is out of reach
    assert_eq!(slot.unwrap().list, vec![CmpValues::U64((1, 9))]);
}

#[test]
fn observer_set_size_updates_usable_count() {
    let mut map = StdCmpMap::with_sites(4);
    log_pairs(&mut map, 2, &[(8, 8)]);
    let mut observer: StdCmpObserver<StdCmpMap, CmpValuesMetadata> =
        StdCmpObserver::with_size("cmplog", map, true, 1);
    assert_eq!(observer.usable_count(), 1);
    // the instrumentation collaborator grows its usable region
    observer.set_size(3);
    assert_eq!(observer.usable_count(), 3);
    let mut slot: Option<CmpValuesMetadata> = None;
    observer.post_exec(&mut slot, &ExitKind::Normal).unwrap();
    assert_eq!(slot.unwrap().list, vec![CmpValues::U64((8, 8))]);
}

#[test]
fn observer_pre_exec_resets_map() {
    let mut map = StdCmpMap::with_sites(1);
    log_pairs(&mut map, 0, &[(1, 2), (3, 4)]);
    let mut observer: StdCmpObserver<StdCmpMap, CmpValuesMetadata> =
        StdCmpObserver::new("cmplog", map, true);
    observer.pre_exec().unwrap();
    assert_eq!(observer.cmp_map().usable_executions_for(0), 0);
}

#[test]
fn observer_data_is_threaded_to_dual_metadata() {
    let mut map = StdCmpMap::with_sites(1);
    log_pairs(&mut map, 0, &[(3, 9)]);
    let observer: StdCmpObserver<StdCmpMap, AFLppCmpValuesMetadata> =
        StdCmpObserver::with_data("aflpp-cmplog", map, true, true);
    assert_eq!(*observer.data(), true);
    let mut slot: Option<AFLppCmpValuesMetadata> = None;
    observer.post_exec(&mut slot, &ExitKind::Normal).unwrap();
    let meta = slot.unwrap();
    assert!(meta.orig_cmpvals().get(0).is_some());
    assert!(meta.new_cmpvals().get(0).is_none());
}
