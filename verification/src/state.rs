//! The per-client run state that the mutational stages operate on: the
//! random source, the currently selected corpus entry, the metadata slots
//! that the observers fill, and the persisted per-stage restart counters.

use std::collections::HashMap;

use vstd::prelude::*;

use crate::observers::{AFLppCmpValuesMetadata, CmpValuesMetadata};

verus! {

broadcast use vstd::std_specs::hash::group_hash_axioms;

/// The pseudo-random generator used by the run state.
pub type StdRand = libafl_bolts::rands::RomuDuoJrRand;

#[verifier::external_type_specification]
#[verifier::external_body]
pub struct ExRomuDuoJrRand(libafl_bolts::rands::RomuDuoJrRand);

/// Relies on `libafl_bolts::rands::RomuDuoJrRand::with_seed`: a generator
/// whose state is derived from the given seed.  Nothing is promised of the
/// values it will draw.
#[verifier::external_body]
pub fn rand_with_seed(seed: u64) -> (r: StdRand) {
    libafl_bolts::rands::RomuDuoJrRand::with_seed(seed)
}

/// Relies on `libafl_bolts::rands::Rand::below`: the draw multiplies a
/// fresh 64-bit value by the bound and keeps the high 64 bits, so the
/// result is always below the bound.  Which value comes back is not
/// promised: two draws on equal inputs may differ.
#[verifier::external_body]
pub fn rand_below(rand: &mut StdRand, upper_bound_excl: usize) -> (r: usize)
    requires
        upper_bound_excl >= 1,
    ensures
        r < upper_bound_excl,
{
    libafl_bolts::rands::Rand::below(rand, upper_bound_excl)
}

/// A stored, previously evaluated input: what the corpus hands the
/// mutational stage.  The input may be absent when the stored entry has
/// not been materialized.
#[derive(Debug, Clone)]
pub struct Testcase<I> {
    /// The stored input, if it has been materialized.
    pub input: Option<I>,
}

impl<I> Testcase<I> {
    /// A testcase whose input is materialized.
    pub fn new(input: I) -> (r: Self)
        ensures
            r.input == Some(input),
    {
        Testcase { input: Some(input) }
    }

    /// A testcase whose stored input cannot be materialized.
    pub fn unloaded() -> (r: Self)
        ensures
            r.input is None,
    {
        Testcase { input: None }
    }

    /// The stored input.
    pub fn input(&self) -> (r: &Option<I>)
        ensures
            *r == self.input,
    {
        &self.input
    }
}

/// Hands out the process-unique suffixes that keep the restart counters of
/// several instances of one stage type apart.  It is owned by whoever
/// constructs the stages, so no shared mutable global is needed.
#[derive(Debug)]
pub struct StageRegistry {
    next_id: u64,
}

impl StageRegistry {
    /// The next id this registry will hand out.
    pub closed spec fn spec_next_id(&self) -> u64 {
        self.next_id
    }

    /// A registry that has handed out no ids yet.
    pub fn new() -> (r: Self)
        ensures
            r.spec_next_id() == 0,
    {
        StageRegistry { next_id: 0 }
    }

    /// The next unused id; no two calls return the same one.
    pub fn fresh_id(&mut self) -> (r: u64)
        requires
            old(self).spec_next_id() < u64::MAX,
        ensures
            r == old(self).spec_next_id(),
            final(self).spec_next_id() == old(self).spec_next_id() + 1,
    {
        let id = self.next_id;
        self.next_id = self.next_id + 1;
        id
    }
}

/// Persisted per-stage retry bookkeeping: counts, per stage id, how often
/// the stage was re-entered after an abnormal exit (crash or timeout), so
/// that the process-restart machinery knows whether to resume the stage on
/// the same corpus entry or give up and move on.
#[derive(Debug)]
pub struct RetryCountRestartHelper {
    counts: HashMap<u64, u64>,
}

/// How a stage's recorded-entry count evolves when one more entry is
/// recorded: it grows by one, saturating at `u64::MAX`.
pub open spec fn next_entry_count(c: u64) -> int {
    if c < u64::MAX {
        c + 1
    } else {
        u64::MAX as int
    }
}

impl RetryCountRestartHelper {
    /// How many entries into the stage have been recorded for `id` without
    /// the stage completing normally.
    pub closed spec fn spec_count(&self, id: u64) -> u64 {
        if self.counts@.contains_key(id) {
            self.counts@[id]
        } else {
            0
        }
    }

    /// A helper with no recorded entries.
    pub fn new() -> (r: Self)
        ensures
            forall|id: u64| r.spec_count(id) == 0,
    {
        RetryCountRestartHelper { counts: HashMap::new() }
    }

    /// Record one entry into the stage named by `id` and say whether the
    /// stage may (re-)run: true until more than `max_retries` entries have
    /// been recorded without `clear_progress`.
    ///
    /// The count saturates at `u64::MAX`.
    pub fn should_restart(&mut self, id: u64, max_retries: u64) -> (r: bool)
        ensures
            final(self).spec_count(id) == next_entry_count(old(self).spec_count(id)),
            r == (final(self).spec_count(id) <= max_retries),
            forall|other: u64| other != id ==> final(self).spec_count(other) == old(
                self,
            ).spec_count(other),
    {
        let prior = match self.counts.get(&id) {
            Some(c) => *c,
            None => 0,
        };
        let count = if prior < u64::MAX {
            prior + 1
        } else {
            prior
        };
        self.counts.insert(id, count);
        count <= max_retries
    }

    /// Forget the recorded entries for `id`: the stage completed normally,
    /// so a later abnormal exit starts with a fresh allowance.
    pub fn clear_progress(&mut self, id: u64)
        ensures
            final(self).spec_count(id) == 0,
            forall|other: u64| other != id ==> final(self).spec_count(other) == old(
                self,
            ).spec_count(other),
    {
        self.counts.remove(&id);
    }
}

/// Law (restart counter): from a helper with no recorded entries for a
/// stage, three entries in a row are allowed with an allowance of 3, and
/// the fourth is refused; clearing progress returns the counter to the
/// cleared state, restoring the full allowance.  The `h1 .. h4` are the
/// helper's states after each successive `should_restart` call, as that
/// call's contract describes them.
pub proof fn lemma_restart_counter_allowance(
    h0: RetryCountRestartHelper,
    h1: RetryCountRestartHelper,
    h2: RetryCountRestartHelper,
    h3: RetryCountRestartHelper,
    h4: RetryCountRestartHelper,
    id: u64,
)
    requires
        h0.spec_count(id) == 0,
        h1.spec_count(id) == next_entry_count(h0.spec_count(id)),
        h2.spec_count(id) == next_entry_count(h1.spec_count(id)),
        h3.spec_count(id) == next_entry_count(h2.spec_count(id)),
        h4.spec_count(id) == next_entry_count(h3.spec_count(id)),
    ensures
        h1.spec_count(id) <= 3,
        h2.spec_count(id) <= 3,
        h3.spec_count(id) <= 3,
        !(h4.spec_count(id) <= 3),
{
}

/// The per-client run state: single-threaded, exclusively owned by the
/// fuzzing loop.  Stages draw randomness from it, the observers fill its
/// metadata slots, and the restart helper persists the per-stage retry
/// counters.
#[derive(Debug)]
pub struct StdState<I> {
    /// The source of randomness for iteration-count draws and mutations.
    pub rand: StdRand,
    /// The corpus entry currently selected for fuzzing, if any.
    pub current: Option<Testcase<I>>,
    /// Per-stage retry counters, persisted across stage invocations.
    pub restart_helper: RetryCountRestartHelper,
    /// The single-run comparison metadata slot, lazily created by the
    /// observer on first use.
    pub cmp_values_metadata: Option<CmpValuesMetadata>,
    /// The dual-run comparison metadata slot, lazily created by the
    /// observer on first use.
    pub aflpp_cmp_values_metadata: Option<AFLppCmpValuesMetadata>,
}

impl<I> StdState<I> {
    /// A fresh state with no entry selected, empty metadata slots, and a
    /// random source seeded from `seed`.
    pub fn new(seed: u64) -> (r: Self)
        ensures
            r.current is None,
            r.cmp_values_metadata is None,
            r.aflpp_cmp_values_metadata is None,
            forall|id: u64| r.restart_helper.spec_count(id) == 0,
    {
        StdState {
            rand: rand_with_seed(seed),
            current: None,
            restart_helper: RetryCountRestartHelper::new(),
            cmp_values_metadata: None,
            aflpp_cmp_values_metadata: None,
        }
    }

    /// Select a corpus entry for fuzzing.
    pub fn set_current(&mut self, testcase: Testcase<I>)
        ensures
            final(self).current == Some(testcase),
            final(self).rand == old(self).rand,
            final(self).restart_helper == old(self).restart_helper,
            final(self).cmp_values_metadata == old(self).cmp_values_metadata,
            final(self).aflpp_cmp_values_metadata == old(self).aflpp_cmp_values_metadata,
    {
        self.current = Some(testcase);
    }
}

} // verus!
