//! Reduction of a raw comparison trace into durable metadata.
//!
//! After an execution, the observer walks every usable site of the
//! [`CmpMap`] and folds the logged operand pairs into a metadata value.
//! The single-run metadata ([`CmpValuesMetadata`]) applies a loop-counter
//! heuristic: a site whose operands step monotonically by one on (almost)
//! every logged transition is a loop counter and is discarded whole.  The
//! dual-run metadata ([`AFLppCmpValuesMetadata`]) keeps raw fidelity and
//! files the values per site for before/after-mutation diffing.

use vstd::prelude::*;
use vstd::string::StringExecFns;

use crate::cmp::{AFLppCmpLogHeader, CmpMap, CmpMapHeaders, CmpValues};
use crate::{Error, ExitKind};

verus! {

/// The logged values of site `i`, restricted to the first `n` log slots:
/// slot `j` contributes its value when `values_of(i, j)` is available.
pub open spec fn logged_prefix<CM: CmpMap>(cm: CM, i: int, n: int) -> Seq<CmpValues>
    decreases n,
{
    if n <= 0 {
        Seq::empty()
    } else {
        match cm.spec_values(i, n - 1) {
            Some(v) => logged_prefix(cm, i, n - 1).push(v),
            None => logged_prefix(cm, i, n - 1),
        }
    }
}

/// All logged values of site `i`, in logged order.
pub open spec fn logged_values<CM: CmpMap>(cm: CM, i: int) -> Seq<CmpValues> {
    logged_prefix(cm, i, cm.spec_usable_executions(i) as int)
}

/// Whether logged pair `b`, read directly after `a`, continues a monotonic
/// run in operand position `pos` (0 or 1): the operand of `b` is the
/// operand of `a` plus one (`inc`) or minus one (`!inc`), wrapping at 64
/// bits.  Pairs without a numeric widening never continue a run.
pub open spec fn monotonic_step(a: CmpValues, b: CmpValues, pos: int, inc: bool) -> bool {
    match (a.wide_pair(), b.wide_pair()) {
        (Some(x), Some(y)) => {
            let xa = if pos == 0 {
                x.0
            } else {
                x.1
            };
            let yb = if pos == 0 {
                y.0
            } else {
                y.1
            };
            if inc {
                xa.wrapping_add(1) == yb
            } else {
                xa.wrapping_sub(1) == yb
            }
        },
        _ => false,
    }
}

/// How many consecutive transitions of `s` are monotonic steps in operand
/// position `pos` and direction `inc`.
pub open spec fn monotonic_steps(s: Seq<CmpValues>, pos: int, inc: bool) -> int
    decreases s.len(),
{
    if s.len() <= 1 {
        0
    } else {
        monotonic_steps(s.drop_last(), pos, inc) + if monotonic_step(
            s[s.len() - 2],
            s[s.len() - 1],
            pos,
            inc,
        ) {
            1int
        } else {
            0int
        }
    }
}

/// The loop-counter heuristic: a site with more than 4 logged executions
/// whose values, in one operand position and one direction, step
/// monotonically on at least `execs - 2` transitions is treated as a
/// monotonic loop counter.  The slack of 2 tolerates one spurious
/// non-monotonic transition from a wrapped ring buffer.
pub open spec fn is_loop_pattern(s: Seq<CmpValues>, execs: int) -> bool {
    execs > 4 && (monotonic_steps(s, 0, true) >= execs - 2 || monotonic_steps(s, 1, true) >= execs
        - 2 || monotonic_steps(s, 0, false) >= execs - 2 || monotonic_steps(s, 1, false) >= execs
        - 2)
}

/// What the reduction keeps of site `i`: nothing when the site was never
/// logged or looks like a loop counter, else every logged value in order.
pub open spec fn site_kept_values<CM: CmpMap>(cm: CM, i: int) -> Seq<CmpValues> {
    let execs = cm.spec_usable_executions(i) as int;
    if execs == 0 {
        Seq::empty()
    } else if is_loop_pattern(logged_values(cm, i), execs) {
        Seq::empty()
    } else {
        logged_values(cm, i)
    }
}

/// The full reduction output over sites `0 .. count`, in site order.
pub open spec fn reduced_values<CM: CmpMap>(cm: CM, count: int) -> Seq<CmpValues>
    decreases count,
{
    if count <= 0 {
        Seq::empty()
    } else {
        reduced_values(cm, count - 1) + site_kept_values(cm, count - 1)
    }
}

/// The last logged value so far, the "last slot" that loop detection
/// compares the next value against.
pub open spec fn last_logged(s: Seq<CmpValues>) -> Option<CmpValues> {
    if s.len() == 0 {
        None
    } else {
        Some(s.last())
    }
}

/// There are never more monotonic transitions than transitions.
pub proof fn lemma_monotonic_steps_bound(s: Seq<CmpValues>, pos: int, inc: bool)
    ensures
        0 <= monotonic_steps(s, pos, inc),
        s.len() >= 1 ==> monotonic_steps(s, pos, inc) <= s.len() - 1,
        s.len() == 0 ==> monotonic_steps(s, pos, inc) == 0,
    decreases s.len(),
{
    if s.len() > 1 {
        lemma_monotonic_steps_bound(s.drop_last(), pos, inc);
    }
}

/// Law (loop detection): a site whose logged values all continue one
/// monotonic run — one operand stepping by one, in one direction, on every
/// transition — has every transition monotonic.
pub proof fn lemma_monotonic_steps_all(s: Seq<CmpValues>, pos: int, inc: bool)
    requires
        s.len() >= 1,
        forall|k: int| #![trigger s[k]] 1 <= k < s.len() ==> monotonic_step(s[k - 1], s[k], pos, inc),
    ensures
        monotonic_steps(s, pos, inc) == s.len() - 1,
    decreases s.len(),
{
    if s.len() > 1 {
        let t = s.drop_last();
        assert forall|k: int| #![trigger t[k]] 1 <= k < t.len() implies monotonic_step(
            t[k - 1],
            t[k],
            pos,
            inc,
        ) by {
            assert(t[k - 1] == s[k - 1]);
            assert(t[k] == s[k]);
        }
        lemma_monotonic_steps_all(t, pos, inc);
    }
}

/// Law (wrap tolerance): with at most one transition excused — the ring
/// buffer of a [`CmpMap`] may wrap once mid-run — a monotonic site still
/// shows at least `len - 2` monotonic transitions.
pub proof fn lemma_monotonic_steps_all_but_one(s: Seq<CmpValues>, pos: int, inc: bool, k0: int)
    requires
        s.len() >= 1,
        forall|k: int| #![trigger s[k]]
            1 <= k < s.len() && k != k0 ==> monotonic_step(s[k - 1], s[k], pos, inc),
    ensures
        monotonic_steps(s, pos, inc) >= s.len() - 2,
    decreases s.len(),
{
    if s.len() > 1 {
        let t = s.drop_last();
        assert forall|k: int| #![trigger t[k]] 1 <= k < t.len() && k != k0 implies monotonic_step(
            t[k - 1],
            t[k],
            pos,
            inc,
        ) by {
            assert(t[k - 1] == s[k - 1]);
            assert(t[k] == s[k]);
        }
        if k0 == s.len() - 1 {
            if t.len() >= 1 {
                lemma_monotonic_steps_all(t, pos, inc);
            }
        } else {
            lemma_monotonic_steps_all_but_one(t, pos, inc, k0);
        }
    }
}

/// Law (loop-detection correctness, discard direction): a site with at
/// least 5 logged executions, every log slot filled, where one operand
/// continues one monotonic run on every transition except at most one
/// (tolerating a ring wrap), contributes nothing to the reduction.
pub proof fn lemma_loop_counter_site_discarded<CM: CmpMap>(
    cm: CM,
    i: int,
    pos: int,
    inc: bool,
    k0: int,
)
    requires
        pos == 0 || pos == 1,
        cm.spec_usable_executions(i) > 4,
        logged_values(cm, i).len() == cm.spec_usable_executions(i),
        forall|k: int| #![trigger logged_values(cm, i)[k]]
            1 <= k < logged_values(cm, i).len() && k != k0 ==> monotonic_step(
                logged_values(cm, i)[k - 1],
                logged_values(cm, i)[k],
                pos,
                inc,
            ),
    ensures
        site_kept_values(cm, i) == Seq::<CmpValues>::empty(),
{
    let s = logged_values(cm, i);
    let execs = cm.spec_usable_executions(i) as int;
    lemma_monotonic_steps_all_but_one(s, pos, inc, k0);
    assert(is_loop_pattern(s, execs));
}

/// Law (loop-detection correctness, retain direction): a site with logged
/// pairs whose values do not form a monotonic loop pattern — in no operand
/// position and direction do `execs - 2` transitions step by one — is
/// retained in full, every logged value in logged order.
pub proof fn lemma_non_loop_site_retained<CM: CmpMap>(cm: CM, i: int)
    requires
        cm.spec_usable_executions(i) > 0,
        !is_loop_pattern(logged_values(cm, i), cm.spec_usable_executions(i) as int),
    ensures
        site_kept_values(cm, i) == logged_values(cm, i),
{
}

/// A prefix of the log holds no more values than it has slots.
pub proof fn lemma_logged_prefix_len<CM: CmpMap>(cm: CM, i: int, n: int)
    ensures
        logged_prefix(cm, i, n).len() <= if n >= 0 {
            n
        } else {
            0
        },
    decreases n,
{
    if n > 0 {
        lemma_logged_prefix_len(cm, i, n - 1);
    }
}

/// Appending one value extends the monotonic-transition count by exactly
/// the one new transition, when there is one and it is monotonic.
pub proof fn lemma_monotonic_steps_push(s: Seq<CmpValues>, v: CmpValues, pos: int, inc: bool)
    ensures
        monotonic_steps(s.push(v), pos, inc) == monotonic_steps(s, pos, inc) + if s.len() >= 1
            && monotonic_step(s.last(), v, pos, inc) {
            1int
        } else {
            0int
        },
{
    let t = s.push(v);
    if s.len() == 0 {
        assert(t.len() == 1);
    } else {
        assert(t.drop_last() =~= s);
        assert(t[t.len() - 1] == v);
        assert(t[t.len() - 2] == s.last());
    }
}

/// Generic metadata trait for use in a [`CmpObserver`], which adds
/// comparisons from an observed [`CmpMap`].
///
/// Each metadata type fixes, as the spec function `add_from_view`, what
/// one reduction pass leaves in the metadata; `add_from` is its
/// executable form.
pub trait CmpObserverMetadata<CM: CmpMap>: View + Sized {
    /// Extra data used by the metadata when adding information from an
    /// observed map, for example the flag distinguishing the original from
    /// the mutated run in [`AFLppCmpValuesMetadata`].
    type Data;

    /// The contents of a freshly created metadata instance.
    spec fn new_metadata_view() -> Self::V;

    /// What one reduction pass over sites `0 .. usable_count` of `cm`
    /// leaves in the metadata, starting from contents `prior`.
    spec fn add_from_view(prior: Self::V, usable_count: usize, cm: CM, data: Self::Data) -> Self::V;

    /// The auxiliary data assumed when an observer is built without any.
    spec fn spec_default_data() -> Self::Data;

    /// Instantiate a new metadata instance, used by an observer to create
    /// one when it is missing and metadata accumulation is enabled.
    fn new_metadata() -> (r: Self)
        ensures
            r@ == Self::new_metadata_view(),
    ;

    /// The auxiliary data used when an observer is built without any.
    fn default_data() -> (r: Self::Data)
        ensures
            r == Self::spec_default_data(),
    ;

    /// Add comparisons to this metadata from an observed map.
    fn add_from(&mut self, usable_count: usize, cmp_map: &CM, data: &Self::Data)
        requires
            usable_count <= cmp_map.spec_len(),
        ensures
            final(self)@ == Self::add_from_view(old(self)@, usable_count, *cmp_map, *data),
    ;
}

/// A state metadata holding a list of values logged from comparisons.
///
/// The list is rebuilt from scratch on every reduction pass; it never
/// accumulates across runs.
#[derive(Debug)]
pub struct CmpValuesMetadata {
    /// A `list` of values.
    pub list: Vec<CmpValues>,
}

impl View for CmpValuesMetadata {
    type V = Seq<CmpValues>;

    open spec fn view(&self) -> Seq<CmpValues> {
        self.list@
    }
}

impl CmpValuesMetadata {
    /// Creates a new [`CmpValuesMetadata`] with an empty value list.
    pub fn new() -> (r: Self)
        ensures
            r@ == Seq::<CmpValues>::empty(),
    {
        CmpValuesMetadata { list: Vec::new() }
    }
}

impl<CM: CmpMap> CmpObserverMetadata<CM> for CmpValuesMetadata {
    type Data = bool;

    open spec fn new_metadata_view() -> Seq<CmpValues> {
        Seq::empty()
    }

    /// The single-run reduction replaces the list outright: its result
    /// does not depend on the prior contents nor on the auxiliary data.
    open spec fn add_from_view(
        prior: Seq<CmpValues>,
        usable_count: usize,
        cm: CM,
        data: bool,
    ) -> Seq<CmpValues> {
        reduced_values(cm, usable_count as int)
    }

    open spec fn spec_default_data() -> bool {
        false
    }

    fn new_metadata() -> (r: Self) {
        CmpValuesMetadata::new()
    }

    fn default_data() -> (r: bool) {
        false
    }

    /// The reduction: walk sites `0 .. usable_count`; skip sites without
    /// logged pairs; discard sites that look like monotonic loop counters;
    /// append every logged value of the remaining sites in logged order.
    fn add_from(&mut self, usable_count: usize, cmp_map: &CM, data: &bool) {
        self.list.clear();
        let ghost cm = *cmp_map;
        let mut i: usize = 0;
        while i < usable_count
            invariant
                i <= usable_count,
                usable_count <= cm.spec_len(),
                cm == *cmp_map,
                self.list@ == reduced_values(cm, i as int),
            decreases usable_count - i,
        {
            let ghost list_before = self.list@;
            let execs = cmp_map.usable_executions_for(i);
            if execs > 0 {
                let mut discard = false;
                if execs > 4 {
                    // Recognize loops and discard the whole site if needed
                    let mut increasing_v0: usize = 0;
                    let mut increasing_v1: usize = 0;
                    let mut decreasing_v0: usize = 0;
                    let mut decreasing_v1: usize = 0;

                    let mut last: Option<CmpValues> = None;
                    let mut j: usize = 0;
                    while j < execs
                        invariant
                            j <= execs,
                            i < usable_count <= cm.spec_len(),
                            cm == *cmp_map,
                            execs == cm.spec_usable_executions(i as int),
                            increasing_v0 == monotonic_steps(
                                logged_prefix(cm, i as int, j as int),
                                0,
                                true,
                            ),
                            increasing_v1 == monotonic_steps(
                                logged_prefix(cm, i as int, j as int),
                                1,
                                true,
                            ),
                            decreasing_v0 == monotonic_steps(
                                logged_prefix(cm, i as int, j as int),
                                0,
                                false,
                            ),
                            decreasing_v1 == monotonic_steps(
                                logged_prefix(cm, i as int, j as int),
                                1,
                                false,
                            ),
                            last == last_logged(logged_prefix(cm, i as int, j as int)),
                            self.list@ == list_before,
                        decreases execs - j,
                    {
                        proof {
                            lemma_logged_prefix_len(cm, i as int, j as int);
                            lemma_monotonic_steps_bound(
                                logged_prefix(cm, i as int, j as int),
                                0,
                                true,
                            );
                            lemma_monotonic_steps_bound(
                                logged_prefix(cm, i as int, j as int),
                                1,
                                true,
                            );
                            lemma_monotonic_steps_bound(
                                logged_prefix(cm, i as int, j as int),
                                0,
                                false,
                            );
                            lemma_monotonic_steps_bound(
                                logged_prefix(cm, i as int, j as int),
                                1,
                                false,
                            );
                        }
                        if let Some(val) = cmp_map.values_of(i, j) {
                            proof {
                                lemma_monotonic_steps_push(
                                    logged_prefix(cm, i as int, j as int),
                                    val,
                                    0,
                                    true,
                                );
                                lemma_monotonic_steps_push(
                                    logged_prefix(cm, i as int, j as int),
                                    val,
                                    1,
                                    true,
                                );
                                lemma_monotonic_steps_push(
                                    logged_prefix(cm, i as int, j as int),
                                    val,
                                    0,
                                    false,
                                );
                                lemma_monotonic_steps_push(
                                    logged_prefix(cm, i as int, j as int),
                                    val,
                                    1,
                                    false,
                                );
                            }
                            let l_wide = match last {
                                Some(x) => x.to_u64_tuple(),
                                None => None,
                            };
                            if let Some(l) = l_wide {
                                if let Some(v) = val.to_u64_tuple() {
                                    if l.0.wrapping_add(1) == v.0 {
                                        increasing_v0 = increasing_v0 + 1;
                                    }
                                    if l.1.wrapping_add(1) == v.1 {
                                        increasing_v1 = increasing_v1 + 1;
                                    }
                                    if l.0.wrapping_sub(1) == v.0 {
                                        decreasing_v0 = decreasing_v0 + 1;
                                    }
                                    if l.1.wrapping_sub(1) == v.1 {
                                        decreasing_v1 = decreasing_v1 + 1;
                                    }
                                }
                            }
                            last = Some(val);
                        }
                        j = j + 1;
                    }
                    // We check for execs-2 because the logged execs may wrap
                    // and have something like 8 9 10 3 4 5 6 7
                    if increasing_v0 >= execs - 2 || increasing_v1 >= execs - 2 || decreasing_v0
                        >= execs - 2 || decreasing_v1 >= execs - 2 {
                        discard = true;
                    }
                    proof {
                        assert(discard == is_loop_pattern(
                            logged_values(cm, i as int),
                            execs as int,
                        ));
                    }
                }
                if !discard {
                    let mut j: usize = 0;
                    while j < execs
                        invariant
                            j <= execs,
                            i < usable_count <= cm.spec_len(),
                            cm == *cmp_map,
                            execs == cm.spec_usable_executions(i as int),
                            self.list@ == list_before + logged_prefix(cm, i as int, j as int),
                        decreases execs - j,
                    {
                        if let Some(val) = cmp_map.values_of(i, j) {
                            proof {
                                assert(self.list@.push(val) =~= list_before + logged_prefix(
                                    cm,
                                    i as int,
                                    j as int,
                                ).push(val));
                            }
                            self.list.push(val);
                        }
                        j = j + 1;
                    }
                } else {
                    proof {
                        assert(self.list@ =~= list_before + site_kept_values(cm, i as int));
                    }
                }
            }
            i = i + 1;
            proof {
                assert(self.list@ =~= reduced_values(cm, i as int));
            }
        }
    }
}

/// Law (no accumulation): one reduction pass determines the value list
/// from the map and the usable count alone; running it twice on the same
/// unchanged snapshot — whatever the list held before either pass — yields
/// the same ordered value list.
pub proof fn lemma_reduction_idempotent<CM: CmpMap>(
    first: Seq<CmpValues>,
    second: Seq<CmpValues>,
    usable_count: usize,
    cm: CM,
    data1: bool,
    data2: bool,
)
    ensures
        <CmpValuesMetadata as CmpObserverMetadata<CM>>::add_from_view(
            first,
            usable_count,
            cm,
            data1,
        ) == <CmpValuesMetadata as CmpObserverMetadata<CM>>::add_from_view(
            second,
            usable_count,
            cm,
            data2,
        ),
{
}

/// Per-site filing of one run's values: for every site in `0 .. count`
/// with logged pairs, the site's logged values are entered under its site
/// id; sites without logged pairs, and entries for other site ids, are
/// left as they were.
pub open spec fn filed_values<CM: CmpMap>(
    prior: Map<usize, Seq<CmpValues>>,
    cm: CM,
    count: int,
) -> Map<usize, Seq<CmpValues>>
    decreases count,
{
    if count <= 0 {
        prior
    } else {
        let m = filed_values(prior, cm, count - 1);
        if cm.spec_usable_executions(count - 1) > 0 {
            m.insert((count - 1) as usize, logged_values(cm, count - 1))
        } else {
            m
        }
    }
}

/// The `(site id, header)` pairs of one run, in site order, one pair for
/// every site in `0 .. count` with logged pairs.
pub open spec fn header_pairs<CM: CmpMapHeaders>(cm: CM, count: int) -> Seq<
    (usize, AFLppCmpLogHeader),
>
    decreases count,
{
    if count <= 0 {
        Seq::empty()
    } else {
        let s = header_pairs(cm, count - 1);
        if cm.spec_usable_executions(count - 1) > 0 {
            s.push(((count - 1) as usize, cm.spec_header(count - 1)))
        } else {
            s
        }
    }
}

/// Mapping from site id to the comparison values logged at that site in
/// one run.  The storage is a `hashbrown` hash map, held opaquely; its
/// contents are exposed to the verifier through [`site_vals_of`].
#[verifier::external_body]
#[derive(Debug)]
pub struct SiteValsMap {
    inner: hashbrown::HashMap<usize, Vec<CmpValues>>,
}

/// The contents of a [`SiteValsMap`]: which site ids are present, and the
/// sequence of values filed under each.
pub uninterp spec fn site_vals_of(m: SiteValsMap) -> Map<usize, Seq<CmpValues>>;

/// The contents of a [`SiteValsMap`] with no entries.
pub open spec fn empty_site_vals() -> Map<usize, Seq<CmpValues>> {
    Map::empty()
}

impl View for SiteValsMap {
    type V = Map<usize, Seq<CmpValues>>;

    open spec fn view(&self) -> Map<usize, Seq<CmpValues>> {
        site_vals_of(*self)
    }
}

impl SiteValsMap {
    /// Relies on `hashbrown::HashMap::new`: the new map holds no entries.
    #[verifier::external_body]
    pub fn new() -> (r: Self)
        ensures
            site_vals_of(r) == empty_site_vals(),
    {
        SiteValsMap { inner: hashbrown::HashMap::new() }
    }

    /// Relies on `hashbrown::HashMap::insert`: the value is filed under
    /// the key, replacing a previous entry for the same key and leaving
    /// every other entry as it was.
    #[verifier::external_body]
    pub fn insert(&mut self, k: usize, v: Vec<CmpValues>)
        ensures
            site_vals_of(*final(self)) == site_vals_of(*old(self)).insert(k, v@),
    {
        self.inner.insert(k, v);
    }

    /// Relies on `hashbrown::HashMap::get`: the entry filed under the key,
    /// if one is present.
    #[verifier::external_body]
    pub fn get(&self, k: usize) -> (r: Option<&Vec<CmpValues>>)
        ensures
            r is Some <==> self@.contains_key(k),
            r is Some ==> r.unwrap()@ == self@[k],
    {
        self.inner.get(&k)
    }
}

/// The contents of an [`AFLppCmpValuesMetadata`]: the two per-run site
/// maps and the most recent run's header pairs.
#[verifier::ext_equal]
pub ghost struct AFLppCmpValuesMetadataView {
    /// Contents of the "before mutation" map.
    pub orig_cmpvals: Map<usize, Seq<CmpValues>>,
    /// Contents of the "after mutation" map.
    pub new_cmpvals: Map<usize, Seq<CmpValues>>,
    /// The most recent run's `(site id, header)` pairs.
    pub headers: Seq<(usize, AFLppCmpLogHeader)>,
}

/// A state metadata holding a list of values logged from comparisons,
/// AFL++ redqueen version: values are filed per site id into one of two
/// per-run maps — selected by the auxiliary "original run" flag — so that
/// external redqueen logic can diff comparisons before and after a
/// candidate mutation.  No loop filtering is applied: diffing wants raw
/// fidelity.
#[derive(Debug)]
pub struct AFLppCmpValuesMetadata {
    /// The first map of comparison values, retrieved by running the
    /// un-mutated input.
    pub orig_cmpvals: SiteValsMap,
    /// The second map of comparison values, retrieved by running the
    /// mutated input.
    pub new_cmpvals: SiteValsMap,
    /// The list of logged site ids and headers of the most recent run.
    pub headers: Vec<(usize, AFLppCmpLogHeader)>,
}

impl View for AFLppCmpValuesMetadata {
    type V = AFLppCmpValuesMetadataView;

    open spec fn view(&self) -> AFLppCmpValuesMetadataView {
        AFLppCmpValuesMetadataView {
            orig_cmpvals: self.orig_cmpvals@,
            new_cmpvals: self.new_cmpvals@,
            headers: self.headers@,
        }
    }
}

impl AFLppCmpValuesMetadata {
    /// Constructor for `AFLppCmpValuesMetadata`
    pub fn new() -> (r: Self)
        ensures
            r@.orig_cmpvals == Map::<usize, Seq<CmpValues>>::empty(),
            r@.new_cmpvals == Map::<usize, Seq<CmpValues>>::empty(),
            r@.headers == Seq::<(usize, AFLppCmpLogHeader)>::empty(),
    {
        AFLppCmpValuesMetadata {
            orig_cmpvals: SiteValsMap::new(),
            new_cmpvals: SiteValsMap::new(),
            headers: Vec::new(),
        }
    }

    /// Getter for the "before mutation" map.
    pub fn orig_cmpvals(&self) -> (r: &SiteValsMap)
        ensures
            r@ == self@.orig_cmpvals,
    {
        &self.orig_cmpvals
    }

    /// Getter for the "after mutation" map.
    pub fn new_cmpvals(&self) -> (r: &SiteValsMap)
        ensures
            r@ == self@.new_cmpvals,
    {
        &self.new_cmpvals
    }

    /// Getter for the most recent run's header pairs.
    pub fn headers(&self) -> (r: &Vec<(usize, AFLppCmpLogHeader)>)
        ensures
            r@ == self@.headers,
    {
        &self.headers
    }
}

impl<CM: CmpMapHeaders> CmpObserverMetadata<CM> for AFLppCmpValuesMetadata {
    /// Whether the run that filled the observed map executed the original
    /// (un-mutated) input.
    type Data = bool;

    open spec fn new_metadata_view() -> AFLppCmpValuesMetadataView {
        AFLppCmpValuesMetadataView {
            orig_cmpvals: Map::empty(),
            new_cmpvals: Map::empty(),
            headers: Seq::empty(),
        }
    }

    /// The dual-run reduction files each logged site's values under its
    /// site id — into the "original" or the "mutated" map as the flag
    /// says, leaving the other map untouched — and replaces the header
    /// list with the run's `(site id, header)` pairs.
    open spec fn add_from_view(
        prior: AFLppCmpValuesMetadataView,
        usable_count: usize,
        cm: CM,
        data: bool,
    ) -> AFLppCmpValuesMetadataView {
        if data {
            AFLppCmpValuesMetadataView {
                orig_cmpvals: filed_values(prior.orig_cmpvals, cm, usable_count as int),
                new_cmpvals: prior.new_cmpvals,
                headers: header_pairs(cm, usable_count as int),
            }
        } else {
            AFLppCmpValuesMetadataView {
                orig_cmpvals: prior.orig_cmpvals,
                new_cmpvals: filed_values(prior.new_cmpvals, cm, usable_count as int),
                headers: header_pairs(cm, usable_count as int),
            }
        }
    }

    open spec fn spec_default_data() -> bool {
        false
    }

    fn new_metadata() -> (r: Self) {
        let m = AFLppCmpValuesMetadata::new();
        proof {
            assert(m@ =~= <Self as CmpObserverMetadata<CM>>::new_metadata_view());
        }
        m
    }

    fn default_data() -> (r: bool) {
        false
    }

    fn add_from(&mut self, usable_count: usize, cmp_map: &CM, data: &bool) {
        let ghost cm = *cmp_map;
        self.headers.clear();
        let mut i: usize = 0;
        while i < usable_count
            invariant
                i <= usable_count,
                usable_count <= cm.spec_len(),
                cm == *cmp_map,
                self.headers@ == header_pairs(cm, i as int),
                *data ==> self.orig_cmpvals@ == filed_values(
                    old(self).orig_cmpvals@,
                    cm,
                    i as int,
                ) && self.new_cmpvals@ == old(self).new_cmpvals@,
                !*data ==> self.new_cmpvals@ == filed_values(
                    old(self).new_cmpvals@,
                    cm,
                    i as int,
                ) && self.orig_cmpvals@ == old(self).orig_cmpvals@,
            decreases usable_count - i,
        {
            let execs = cmp_map.usable_executions_for(i);
            if execs > 0 {
                let mut vals: Vec<CmpValues> = Vec::new();
                let mut j: usize = 0;
                while j < execs
                    invariant
                        j <= execs,
                        i < cm.spec_len(),
                        cm == *cmp_map,
                        execs == cm.spec_usable_executions(i as int),
                        vals@ == logged_prefix(cm, i as int, j as int),
                    decreases execs - j,
                {
                    if let Some(v) = cmp_map.values_of(i, j) {
                        vals.push(v);
                    }
                    j = j + 1;
                }
                if *data {
                    self.orig_cmpvals.insert(i, vals);
                } else {
                    self.new_cmpvals.insert(i, vals);
                }
                self.headers.push((i, cmp_map.header_of(i)));
            }
            i = i + 1;
        }
        proof {
            assert(self@ =~= Self::add_from_view(old(self)@, usable_count, cm, *data));
        }
    }
}


/// A [`CmpObserver`] observes the traced comparisons during the current
/// execution using a [`CmpMap`].
pub trait CmpObserver {
    /// The observed map type.
    type Map;

    /// The number of usable cmps (all by default).
    spec fn spec_usable_count(&self) -> usize;

    /// The observed map.
    spec fn spec_cmp_map(&self) -> Self::Map;

    /// Get the number of usable cmps (all by default)
    fn usable_count(&self) -> (r: usize)
        ensures
            r == self.spec_usable_count(),
    ;

    /// Get the `CmpMap`
    fn cmp_map(&self) -> (r: &Self::Map)
        ensures
            *r == self.spec_cmp_map(),
    ;
}

/// A standard [`CmpObserver`] observer.
///
/// It owns the observed map for the duration of the run, resets it before
/// each execution, and — when metadata accumulation is enabled — folds the
/// map's contents into the metadata slot after each execution.  An
/// optional externally-tracked usable-site count caps how many sites the
/// reduction walks, for instrumentation that only partially fills its map.
#[derive(Debug)]
pub struct StdCmpObserver<CM: CmpMap, M: CmpObserverMetadata<CM>> {
    cmp_map: CM,
    size: Option<usize>,
    name: String,
    add_meta: bool,
    data: M::Data,
}

/// A [`StdCmpObserver`] that optionally adds comparisons into a
/// [`CmpValuesMetadata`].
pub type StdCmpValuesObserver<CM> = StdCmpObserver<CM, CmpValuesMetadata>;

impl<CM: CmpMap, M: CmpObserverMetadata<CM>> StdCmpObserver<CM, M> {
    /// Well-formed: an externally-tracked usable-site count never exceeds
    /// the map's site count.
    pub closed spec fn wf(&self) -> bool {
        self.size is Some ==> self.size.unwrap() <= self.cmp_map.spec_len()
    }

    /// The observer's name.
    pub closed spec fn spec_name(&self) -> Seq<char> {
        self.name@
    }

    /// Whether this observer folds the map into metadata after each
    /// execution.
    pub closed spec fn spec_add_meta(&self) -> bool {
        self.add_meta
    }

    /// The auxiliary data handed to the reduction.
    pub closed spec fn spec_data(&self) -> M::Data {
        self.data
    }

    /// Creates a new observer with the given name and map.
    pub fn new(name: &str, cmp_map: CM, add_meta: bool) -> (r: Self)
        ensures
            r.wf(),
            r.spec_cmp_map() == cmp_map,
            r.spec_usable_count() == cmp_map.spec_len(),
            r.spec_name() == name@,
            r.spec_add_meta() == add_meta,
            r.spec_data() == M::spec_default_data(),
    {
        StdCmpObserver {
            name: String::from_str(name),
            size: None,
            cmp_map,
            add_meta,
            data: M::default_data(),
        }
    }

    /// Creates a new observer with the given name, map, and auxiliary data
    /// used to populate metadata.
    pub fn with_data(name: &str, cmp_map: CM, add_meta: bool, data: M::Data) -> (r: Self)
        ensures
            r.wf(),
            r.spec_cmp_map() == cmp_map,
            r.spec_usable_count() == cmp_map.spec_len(),
            r.spec_name() == name@,
            r.spec_add_meta() == add_meta,
            r.spec_data() == data,
    {
        StdCmpObserver { name: String::from_str(name), size: None, cmp_map, add_meta, data }
    }

    /// Creates a new observer with the given name, map, and
    /// externally-tracked usable-site count.
    pub fn with_size(name: &str, cmp_map: CM, add_meta: bool, size: usize) -> (r: Self)
        requires
            size <= cmp_map.spec_len(),
        ensures
            r.wf(),
            r.spec_cmp_map() == cmp_map,
            r.spec_usable_count() == size,
            r.spec_name() == name@,
            r.spec_add_meta() == add_meta,
            r.spec_data() == M::spec_default_data(),
    {
        StdCmpObserver {
            name: String::from_str(name),
            size: Some(size),
            cmp_map,
            add_meta,
            data: M::default_data(),
        }
    }

    /// Creates a new observer with the given name, map, auxiliary data,
    /// and externally-tracked usable-site count.
    pub fn with_size_data(
        name: &str,
        cmp_map: CM,
        add_meta: bool,
        data: M::Data,
        size: usize,
    ) -> (r: Self)
        requires
            size <= cmp_map.spec_len(),
        ensures
            r.wf(),
            r.spec_cmp_map() == cmp_map,
            r.spec_usable_count() == size,
            r.spec_name() == name@,
            r.spec_add_meta() == add_meta,
            r.spec_data() == data,
    {
        StdCmpObserver { name: String::from_str(name), size: Some(size), cmp_map, add_meta, data }
    }

    /// Update the externally-tracked usable-site count, as the
    /// instrumentation collaborator does when more of its map comes into
    /// use.
    pub fn set_size(&mut self, size: usize)
        requires
            size <= old(self).spec_cmp_map().spec_len(),
        ensures
            final(self).wf(),
            final(self).spec_usable_count() == size,
            final(self).spec_cmp_map() == old(self).spec_cmp_map(),
            final(self).spec_name() == old(self).spec_name(),
            final(self).spec_add_meta() == old(self).spec_add_meta(),
            final(self).spec_data() == old(self).spec_data(),
    {
        self.size = Some(size);
    }

    /// The observer's name.
    pub fn name(&self) -> (r: &String)
        ensures
            r@ == self.spec_name(),
    {
        &self.name
    }

    /// Handle the stored auxiliary data associated with the metadata.
    pub fn data(&self) -> (r: &M::Data)
        ensures
            *r == self.spec_data(),
    {
        &self.data
    }

    /// Mutably reference the stored auxiliary data associated with the
    /// metadata.
    pub fn data_mut(&mut self) -> (r: &mut M::Data)
        ensures
            *r == old(self).spec_data(),
            final(self).spec_data() == *final(r),
            final(self).wf() == old(self).wf(),
            final(self).spec_cmp_map() == old(self).spec_cmp_map(),
            final(self).spec_usable_count() == old(self).spec_usable_count(),
            final(self).spec_name() == old(self).spec_name(),
            final(self).spec_add_meta() == old(self).spec_add_meta(),
    {
        &mut self.data
    }

    /// Reset the observed map for the next execution; fails only if the
    /// underlying map reset fails.
    pub fn pre_exec(&mut self) -> (r: Result<(), Error>)
        ensures
            final(self).spec_name() == old(self).spec_name(),
            final(self).spec_add_meta() == old(self).spec_add_meta(),
            final(self).spec_data() == old(self).spec_data(),
            r is Ok ==> {
                &&& final(self).wf() == old(self).wf()
                &&& final(self).spec_cmp_map().spec_len() == old(self).spec_cmp_map().spec_len()
                &&& final(self).spec_usable_count() == old(self).spec_usable_count()
                &&& forall|i: int|
                    0 <= i < final(self).spec_cmp_map().spec_len()
                        ==> final(self).spec_cmp_map().spec_executions(i) == 0
                        && final(self).spec_cmp_map().spec_usable_executions(i) == 0
            },
    {
        self.cmp_map.reset()
    }

    /// After an execution: if metadata accumulation is enabled, fetch or
    /// create the metadata in the given run-state slot and fold the
    /// observed map into it with the reduction of the metadata type.
    pub fn post_exec(&self, meta: &mut Option<M>, _exit_kind: &ExitKind) -> (r: Result<(), Error>)
        requires
            self.wf(),
        ensures
            r is Ok,
            !self.spec_add_meta() ==> *final(meta) == *old(meta),
            self.spec_add_meta() ==> {
                &&& *final(meta) is Some
                &&& final(meta).unwrap()@ == M::add_from_view(
                    match *old(meta) {
                        Some(m) => m@,
                        None => M::new_metadata_view(),
                    },
                    self.spec_usable_count(),
                    self.spec_cmp_map(),
                    self.spec_data(),
                )
            },
    {
        if self.add_meta {
            if meta.is_none() {
                *meta = Some(M::new_metadata());
            }
            let count = self.usable_count();
            match meta {
                Some(m) => m.add_from(count, &self.cmp_map, &self.data),
                None => (),
            }
        }
        Ok(())
    }
}

impl<CM: CmpMap, M: CmpObserverMetadata<CM>> CmpObserver for StdCmpObserver<CM, M> {
    type Map = CM;

    closed spec fn spec_usable_count(&self) -> usize {
        match self.size {
            None => self.cmp_map.spec_len(),
            Some(s) => s,
        }
    }

    closed spec fn spec_cmp_map(&self) -> CM {
        self.cmp_map
    }

    /// Get the number of usable cmps (all by default)
    fn usable_count(&self) -> (r: usize) {
        match &self.size {
            None => self.cmp_map.len(),
            Some(s) => *s,
        }
    }

    fn cmp_map(&self) -> (r: &CM) {
        &self.cmp_map
    }
}

} // verus!

