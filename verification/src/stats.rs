//! Stage to compute minimal AFL-like stats.
//!
//! The stage only computes: the caller reads the clock, supplies a
//! snapshot of the currently selected corpus entry, and fires the report —
//! if one is due — at its event manager.

use vstd::prelude::*;

use crate::Error;

verus! {

/// What the stats stage reads of the currently selected corpus entry.
#[derive(Debug, Clone, Copy, PartialEq, Eq, Structural)]
pub struct CurrentEntryStats {
    /// How often the entry has been scheduled for fuzzing before.
    pub scheduled_count: usize,
    /// Whether the entry is marked as favored by the scheduler.
    pub is_favored: bool,
}

/// One due report of the corpus counters.
#[derive(Debug, Clone, Copy, PartialEq, Eq, Structural)]
pub struct StatsReport {
    /// Corpus entries not fuzzed yet.
    pub pending: usize,
    /// Corpus entries not yet marked favored.
    pub pend_fav: usize,
    /// Corpus entries this instance found itself.
    pub own_finds: usize,
    /// Corpus entries imported from other instances.
    pub imported: usize,
}

/// The [`StatsStage`] is a simple stage that computes and reports some
/// stats: how many corpus entries have been fuzzed, how many are favored,
/// found locally, or imported — reported at most once per interval.
#[derive(Debug, Clone, Copy, PartialEq, Eq, Structural)]
pub struct StatsStage {
    // the number of testcases that have been fuzzed
    has_fuzzed_size: usize,
    // the number of "favored" testcases
    is_favored_size: usize,
    // the number of testcases found by itself
    own_finds_size: usize,
    // the number of testcases imported by other fuzzers
    imported_size: usize,
    // the last time that we reported all stats, in milliseconds
    last_report_time: u64,
    // the interval in which we report all stats, in milliseconds
    stats_report_interval: u64,
}

impl StatsStage {
    /// How many entries have been counted as fuzzed.
    pub closed spec fn spec_has_fuzzed(&self) -> usize {
        self.has_fuzzed_size
    }

    /// How many entries have been counted as favored.
    pub closed spec fn spec_is_favored(&self) -> usize {
        self.is_favored_size
    }

    /// The last report time, in milliseconds.
    pub closed spec fn spec_last_report_time(&self) -> u64 {
        self.last_report_time
    }

    /// The report interval, in milliseconds.
    pub closed spec fn spec_interval(&self) -> u64 {
        self.stats_report_interval
    }

    /// create a new instance of the [`StatsStage`] reporting at most once
    /// per `interval` milliseconds, with the construction-time clock
    /// reading noted so that the first report waits a full interval
    pub fn new(interval: u64, now: u64) -> (r: Self)
        ensures
            r.spec_has_fuzzed() == 0,
            r.spec_is_favored() == 0,
            r.spec_last_report_time() == now,
            r.spec_interval() == interval,
    {
        StatsStage {
            has_fuzzed_size: 0,
            is_favored_size: 0,
            own_finds_size: 0,
            imported_size: 0,
            last_report_time: now,
            stats_report_interval: interval,
        }
    }

    /// Update the counters for the currently selected corpus entry and
    /// say whether a report is due.
    ///
    /// With no entry selected the stage is in an illegal state.  An entry
    /// that has been scheduled before contributes nothing.  A first-time
    /// entry is counted — and as favored when marked so — and when more
    /// than the report interval has passed since the last report, the
    /// counters are handed back for the caller to fire, with the clock
    /// noted.
    pub fn update_and_report_afl_stats(
        &mut self,
        current: Option<CurrentEntryStats>,
        corpus_size: usize,
        imported: usize,
        now: u64,
    ) -> (r: Result<Option<StatsReport>, Error>)
        requires
            (current matches Some(cur) && cur.scheduled_count == 0) ==> {
                &&& old(self).spec_is_favored() <= old(self).spec_has_fuzzed()
                &&& old(self).spec_has_fuzzed() < corpus_size
                &&& imported <= corpus_size
            },
        ensures
            current is None ==> (r matches Err(Error::IllegalState) && *final(self) == *old(
                self,
            )),
            current matches Some(cur) ==> (cur.scheduled_count != 0 ==> (r matches Ok(None)
                && *final(self) == *old(self))),
            current matches Some(cur) ==> cur.scheduled_count == 0 ==> {
                &&& final(self).spec_has_fuzzed() == old(self).spec_has_fuzzed() + 1
                &&& final(self).spec_is_favored() == old(self).spec_is_favored() + if cur.is_favored {
                    1int
                } else {
                    0int
                }
                &&& final(self).spec_interval() == old(self).spec_interval()
                &&& (if (if now >= old(self).spec_last_report_time() {
                    now - old(self).spec_last_report_time()
                } else {
                    0
                }) > old(self).spec_interval() {
                    &&& r matches Ok(rep) && rep == Some(
                        StatsReport {
                            pending: (corpus_size - final(self).spec_has_fuzzed()) as usize,
                            pend_fav: (corpus_size - final(self).spec_is_favored()) as usize,
                            own_finds: (corpus_size - imported) as usize,
                            imported: imported,
                        },
                    )
                    &&& final(self).spec_last_report_time() == now
                } else {
                    &&& r matches Ok(None)
                    &&& final(self).spec_last_report_time() == old(self).spec_last_report_time()
                })
            },
    {
        let cur = match current {
            Some(cur) => cur,
            None => {
                // the state is not currently processing a corpus entry
                return Err(Error::IllegalState);
            },
        };
        if cur.scheduled_count != 0 {
            return Ok(None);
        }
        self.has_fuzzed_size = self.has_fuzzed_size + 1;
        if cur.is_favored {
            self.is_favored_size = self.is_favored_size + 1;
        }
        let pending_size = corpus_size - self.has_fuzzed_size;
        let pend_favored_size = corpus_size - self.is_favored_size;
        self.imported_size = imported;
        self.own_finds_size = corpus_size - imported;

        let elapsed = if now >= self.last_report_time {
            now - self.last_report_time
        } else {
            0
        };
        if elapsed > self.stats_report_interval {
            self.last_report_time = now;
            Ok(
                Some(
                    StatsReport {
                        pending: pending_size,
                        pend_fav: pend_favored_size,
                        own_finds: self.own_finds_size,
                        imported: self.imported_size,
                    },
                ),
            )
        } else {
            Ok(None)
        }
    }

    /// The stats stage never runs the target, so a crash can never be its
    /// doing: it may always restart.
    pub fn should_restart(&mut self) -> (r: Result<bool, Error>)
        ensures
            r matches Ok(b) && b,
            *final(self) == *old(self),
    {
        Ok(true)
    }

    /// Nothing to clear: the stage keeps no per-entry progress.
    pub fn clear_progress(&mut self) -> (r: Result<(), Error>)
        ensures
            r is Ok,
            *final(self) == *old(self),
    {
        Ok(())
    }
}

impl Default for StatsStage {
    /// the default instance of the [`StatsStage`]: one report per 15
    /// seconds, measured from a clock origin of zero — callers that
    /// measure time from the epoch should prefer [`StatsStage::new`] with
    /// the current clock
    fn default() -> (r: Self)
        ensures
            r.spec_has_fuzzed() == 0,
            r.spec_is_favored() == 0,
            r.spec_last_report_time() == 0,
            r.spec_interval() == 15000,
    {
        StatsStage::new(15000, 0)
    }
}

} // verus!
