//! The mutational stage: the control loop that, for the currently selected
//! corpus entry, draws an iteration count, repeatedly mutates a
//! representation of the entry, and hands each effective variant to an
//! external evaluator.
//!
//! The representation transform ([`MutatedTransform`]) lets mutation
//! operate on a type different from the stored input; any cloneable input
//! type trivially transforms to itself.  Restart bookkeeping is delegated
//! to the run state's retry helper, keyed by the stage's process-unique
//! id.

use vstd::prelude::*;

use crate::state::{next_entry_count, rand_below, StageRegistry, StdState, Testcase};
use crate::{CorpusId, Error};

verus! {

/// The result of a mutation: whether the mutator changed the input.
#[derive(Debug, Clone, Copy, PartialEq, Eq, Structural)]
pub enum MutationResult {
    /// The mutator produced an effective change.
    Mutated,
    /// The mutator left the input as it was; evaluating it again would be
    /// wasted work.
    Skipped,
}

/// A mutator: the external component that derives a new variant from an
/// input, in place.
///
/// The two spec functions classify degenerate mutators, so that the
/// stage's contract can speak about them: an implementation that never
/// reports a change defines `spec_always_skips`, one that always does
/// defines `spec_always_mutates`; an ordinary mutator defines both as
/// false and is unconstrained.
pub trait Mutator<I> {
    /// True of a mutator whose every call reports `Skipped`.  An
    /// implementation that does not override this is classified as
    /// ordinary.
    open spec fn spec_always_skips(&self) -> bool {
        false
    }

    /// True of a mutator whose every call reports `Mutated`.  An
    /// implementation that does not override this is classified as
    /// ordinary.
    open spec fn spec_always_mutates(&self) -> bool {
        false
    }

    /// Mutate the given input in place.
    fn mutate(&mut self, state: &mut StdState<I>, input: &mut I) -> (r: Result<
        MutationResult,
        Error,
    >)
        ensures
            final(self).spec_always_skips() == old(self).spec_always_skips(),
            final(self).spec_always_mutates() == old(self).spec_always_mutates(),
            old(self).spec_always_skips() ==> r matches Ok(MutationResult::Skipped),
            old(self).spec_always_mutates() ==> r matches Ok(MutationResult::Mutated),
    ;

    /// Post-process this mutator after the variant was evaluated,
    /// `new_corpus_id` telling whether (and where) it entered the corpus.
    fn post_exec(&mut self, state: &mut StdState<I>, new_corpus_id: Option<CorpusId>) -> (r: Result<
        (),
        Error,
    >)
        ensures
            final(self).spec_always_skips() == old(self).spec_always_skips(),
            final(self).spec_always_mutates() == old(self).spec_always_mutates(),
    ;
}

/// A mutator that produces a bounded batch of variants from one input in a
/// single call.
///
/// The two spec functions classify mutators with a fixed batch size, so
/// that the stage's contract can count evaluations for them: an
/// implementation whose every successful call returns the same number of
/// variants defines them; an ordinary mutator keeps the defaults and is
/// unconstrained.
pub trait MultiMutator<I> {
    /// True of a mutator whose every successful call returns
    /// `spec_batch_len` variants.
    open spec fn spec_has_fixed_batch(&self) -> bool {
        false
    }

    /// The fixed batch size, where `spec_has_fixed_batch` holds.
    open spec fn spec_batch_len(&self) -> int {
        0
    }

    /// Mutate the given input up to `max_count` times, returning the batch
    /// of variants.
    fn multi_mutate(&mut self, state: &mut StdState<I>, input: &I, max_count: Option<usize>) -> (r:
        Result<Vec<I>, Error>)
        ensures
            final(self).spec_has_fixed_batch() == old(self).spec_has_fixed_batch(),
            final(self).spec_batch_len() == old(self).spec_batch_len(),
            r matches Ok(batch) ==> (max_count is Some ==> batch@.len() <= max_count.unwrap()),
            r matches Ok(batch) ==> (old(self).spec_has_fixed_batch() ==> batch@.len() == old(
                self,
            ).spec_batch_len()),
    ;

    /// Post-process this mutator after one batch member was evaluated.
    fn multi_post_exec(&mut self, state: &mut StdState<I>, new_corpus_id: Option<CorpusId>) -> (r:
        Result<(), Error>)
        ensures
            final(self).spec_has_fixed_batch() == old(self).spec_has_fixed_batch(),
            final(self).spec_batch_len() == old(self).spec_batch_len(),
    ;
}

/// The evaluator boundary: runs the target on one input, scores the
/// result, and may insert the input into the corpus, returning the new
/// corpus id.  The verdict is opaque to the stage.
pub trait Evaluator<E, EM, I> {
    /// The verdict the evaluator reports; the stage does not interpret it.
    type Verdict;

    /// How many inputs this evaluator has been handed so far.  A
    /// verified implementation overrides this with its own counter; the
    /// default cannot satisfy the contract of `evaluate_input`.
    open spec fn spec_eval_count(&self) -> int {
        0
    }

    /// Run and score one input.
    fn evaluate_input(
        &mut self,
        state: &mut StdState<I>,
        executor: &mut E,
        manager: &mut EM,
        input: I,
    ) -> (r: Result<(Self::Verdict, Option<CorpusId>), Error>)
        ensures
            final(self).spec_eval_count() == old(self).spec_eval_count() + 1,
    ;
}

/// Action performed after the un-transformed input is executed (e.g.,
/// updating metadata).
pub trait MutatedTransformPost<I>: Sized {
    /// Perform any post-execution steps necessary for the transformed
    /// input (e.g., updating metadata).
    fn post_exec(self, state: &mut StdState<I>, new_corpus_id: Option<CorpusId>) -> (r: Result<
        (),
        Error,
    >) {
        Ok(())
    }
}

impl<I> MutatedTransformPost<I> for () {
    /// The no-op hook: it succeeds and leaves the state as it was.
    fn post_exec(self, state: &mut StdState<I>, new_corpus_id: Option<CorpusId>) -> (r: Result<
        (),
        Error,
    >)
        ensures
            r is Ok,
            *final(state) == *old(state),
    {
        Ok(())
    }
}

/// A type which may both be transformed from and into a given input type,
/// used to perform mutations over inputs which are not necessarily
/// performable on the underlying type.
///
/// This trait is implemented such that all testcases inherently transform
/// to their inputs, should the input be cloneable.
pub trait MutatedTransform<I>: Sized {
    /// Type indicating actions to be taken after the post-transformation
    /// input is executed.
    type Post: MutatedTransformPost<I>;

    /// Whether the stored entry can be materialized into this
    /// representation: exactly when `try_transform_from` succeeds.
    spec fn can_transform_from(base: Testcase<I>) -> bool;

    /// Transform the provided testcase into this type.
    fn try_transform_from(base: &mut Testcase<I>, state: &StdState<I>) -> (r: Result<Self, Error>)
        ensures
            r is Ok <==> Self::can_transform_from(*old(base)),
    ;

    /// Transform this instance back into the original input type.
    fn try_transform_into(self, state: &StdState<I>) -> (r: Result<(I, Self::Post), Error>);
}

// reflexive definition: a cloneable input type transforms to itself with a
// no-op post-execution hook; it fails exactly when the stored input is not
// materialized.
impl<I: Clone> MutatedTransform<I> for I {
    type Post = ();

    open spec fn can_transform_from(base: Testcase<I>) -> bool {
        base.input is Some
    }

    fn try_transform_from(base: &mut Testcase<I>, state: &StdState<I>) -> (r: Result<Self, Error>) {
        match &base.input {
            Some(input) => Ok(input.clone()),
            None => Err(Error::External),
        }
    }

    /// The reflexive transform-back is the identity: it always succeeds
    /// and hands back the representation itself, with the no-op hook.
    fn try_transform_into(self, state: &StdState<I>) -> (r: Result<(I, Self::Post), Error>)
        ensures
            r matches Ok(p) && p.0 == self,
    {
        Ok((self, ()))
    }
}

/// Runs one mutational pass for the currently selected corpus entry:
/// transform it once — a transform failure forfeits the pass silently —
/// then, `num` times, clone the representation, mutate it, and evaluate
/// every variant the mutator reports as effectively changed, running the
/// mutator's and the transform's post-execution hooks after each
/// evaluation.
pub fn perform_mutational<E, EM, I, M, Z>(
    fuzzer: &mut Z,
    executor: &mut E,
    state: &mut StdState<I>,
    manager: &mut EM,
    mutator: &mut M,
    num: usize,
) -> (r: Result<(), Error>) where
    I: Clone + MutatedTransform<I>,
    M: Mutator<I>,
    Z: Evaluator<E, EM, I>,

    ensures
        final(mutator).spec_always_skips() == old(mutator).spec_always_skips(),
        final(mutator).spec_always_mutates() == old(mutator).spec_always_mutates(),
        old(fuzzer).spec_eval_count() <= final(fuzzer).spec_eval_count() <= old(fuzzer).spec_eval_count() + num,
        old(state).current is None ==> (r matches Err(Error::IllegalState) && final(fuzzer).spec_eval_count() == old(fuzzer).spec_eval_count()),
        (old(state).current matches Some(tc) && !I::can_transform_from(tc)) ==> r is Ok && final(fuzzer).spec_eval_count() == old(fuzzer).spec_eval_count(),
        old(mutator).spec_always_skips() ==> final(fuzzer).spec_eval_count() == old(fuzzer).spec_eval_count(),
        (old(mutator).spec_always_skips() && old(state).current is Some) ==> r is Ok,
        ({
            &&& r is Ok
            &&& old(mutator).spec_always_mutates()
            &&& old(state).current matches Some(tc)
            &&& I::can_transform_from(tc)
        }) ==> final(fuzzer).spec_eval_count() == old(fuzzer).spec_eval_count() + num,
{
    let mut testcase = match state.current.take() {
        Some(tc) => tc,
        None => {
            return Err(Error::IllegalState);
        },
    };
    let transformed = I::try_transform_from(&mut testcase, state);
    state.current = Some(testcase);
    let input = match transformed {
        Ok(input) => input,
        Err(_) => {
            return Ok(());
        },
    };
    let mut k: usize = 0;
    while k < num
        invariant
            k <= num,
            old(state).current is Some,
            I::can_transform_from(old(state).current.unwrap()),
            mutator.spec_always_skips() == old(mutator).spec_always_skips(),
            mutator.spec_always_mutates() == old(mutator).spec_always_mutates(),
            old(fuzzer).spec_eval_count() <= fuzzer.spec_eval_count() <= old(fuzzer).spec_eval_count() + k,
            old(mutator).spec_always_skips() ==> fuzzer.spec_eval_count() == old(fuzzer).spec_eval_count(),
            old(mutator).spec_always_mutates() ==> fuzzer.spec_eval_count() == old(fuzzer).spec_eval_count() + k,
        decreases num - k,
    {
        let mut variant = input.clone();
        let mutated = match mutator.mutate(state, &mut variant) {
            Ok(m) => m,
            Err(e) => {
                return Err(e);
            },
        };
        if matches!(mutated, MutationResult::Mutated) {
            // Time is measured directly in the evaluator
            let (untransformed, post) = match variant.try_transform_into(state) {
                Ok(pair) => pair,
                Err(e) => {
                    return Err(e);
                },
            };
            let corpus_id = match fuzzer.evaluate_input(state, executor, manager, untransformed) {
                Ok((_, id)) => id,
                Err(e) => {
                    return Err(e);
                },
            };
            match mutator.post_exec(state, corpus_id) {
                Ok(()) => (),
                Err(e) => {
                    return Err(e);
                },
            }
            match post.post_exec(state, corpus_id) {
                Ok(()) => (),
                Err(e) => {
                    return Err(e);
                },
            }
        }
        k = k + 1;
    }
    Ok(())
}

/// Default value, how many iterations each stage gets, as an upper bound.
/// It may randomly continue earlier.
pub const DEFAULT_MUTATIONAL_MAX_ITERATIONS: usize = 128;

/// The decimal rendering of a stage id, as `core::fmt` produces it.  The
/// name only disambiguates stage instances for a human reader; every
/// contract is keyed by the id itself.
pub uninterp spec fn decimal_digits(id: u64) -> Seq<char>;

/// Relies on `core::fmt` (the `Display` rendering of `u64`): the stage
/// name is the base name, a colon, and the id's decimal digits.
#[verifier::external_body]
fn format_stage_name(base: &str, id: u64) -> (r: String)
    ensures
        r@ == base@ + seq![':'] + decimal_digits(id),
{
    format!("{base}:{id}")
}

/// A mutational stage is the stage in a fuzzing run that mutates inputs.
pub trait MutationalStage {
    /// The mutator type this stage drives.
    type Mutator;

    /// The mutator registered for this stage.
    spec fn spec_mutator(&self) -> Self::Mutator;

    /// The mutator registered for this stage
    fn mutator(&self) -> (r: &Self::Mutator)
        ensures
            *r == self.spec_mutator(),
    ;

    /// The mutator registered for this stage (mutable)
    fn mutator_mut(&mut self) -> (r: &mut Self::Mutator)
        ensures
            *r == old(self).spec_mutator(),
            final(self).spec_mutator() == *final(r),
    ;
}

/// The default mutational stage: per invocation it draws a fresh iteration
/// count in `[1, max_iterations]` and runs [`perform_mutational`] for that
/// many iterations.
#[derive(Debug)]
pub struct StdMutationalStage<M> {
    name: String,
    id: u64,
    mutator: M,
    max_iterations: usize,
}

impl<M> MutationalStage for StdMutationalStage<M> {
    type Mutator = M;

    closed spec fn spec_mutator(&self) -> M {
        self.mutator
    }

    fn mutator(&self) -> (r: &M) {
        &self.mutator
    }

    fn mutator_mut(&mut self) -> (r: &mut M) {
        &mut self.mutator
    }
}

impl<M> StdMutationalStage<M> {
    /// Well-formed: at least one iteration is drawn.
    pub closed spec fn wf(&self) -> bool {
        1 <= self.max_iterations
    }

    /// The process-unique id that keys this stage's restart counter.
    pub closed spec fn spec_id(&self) -> u64 {
        self.id
    }

    /// The upper bound on the iterations drawn each round.
    pub closed spec fn spec_max_iterations(&self) -> usize {
        self.max_iterations
    }

    /// The stage's display name.
    pub closed spec fn spec_name(&self) -> Seq<char> {
        self.name@
    }

    /// Creates a new default mutational stage
    pub fn new(mutator: M, registry: &mut StageRegistry) -> (r: Self)
        requires
            old(registry).spec_next_id() < u64::MAX,
        ensures
            r.wf(),
            r.spec_id() == old(registry).spec_next_id(),
            final(registry).spec_next_id() == old(registry).spec_next_id() + 1,
            r.spec_mutator() == mutator,
            r.spec_max_iterations() == DEFAULT_MUTATIONAL_MAX_ITERATIONS,
            r.spec_name() == "mutational"@ + seq![':'] + decimal_digits(r.spec_id()),
    {
        Self::transforming_with_max_iterations(mutator, DEFAULT_MUTATIONAL_MAX_ITERATIONS, registry)
    }

    /// Creates a new mutational stage with the given max iterations
    pub fn with_max_iterations(mutator: M, max_iterations: usize, registry: &mut StageRegistry) -> (r: Self)
        requires
            1 <= max_iterations,
            old(registry).spec_next_id() < u64::MAX,
        ensures
            r.wf(),
            r.spec_id() == old(registry).spec_next_id(),
            final(registry).spec_next_id() == old(registry).spec_next_id() + 1,
            r.spec_mutator() == mutator,
            r.spec_max_iterations() == max_iterations,
            r.spec_name() == "mutational"@ + seq![':'] + decimal_digits(r.spec_id()),
    {
        Self::transforming_with_max_iterations(mutator, max_iterations, registry)
    }

    /// Creates a new transforming mutational stage with the default max
    /// iterations
    pub fn transforming(mutator: M, registry: &mut StageRegistry) -> (r: Self)
        requires
            old(registry).spec_next_id() < u64::MAX,
        ensures
            r.wf(),
            r.spec_id() == old(registry).spec_next_id(),
            final(registry).spec_next_id() == old(registry).spec_next_id() + 1,
            r.spec_mutator() == mutator,
            r.spec_max_iterations() == DEFAULT_MUTATIONAL_MAX_ITERATIONS,
            r.spec_name() == "mutational"@ + seq![':'] + decimal_digits(r.spec_id()),
    {
        Self::transforming_with_max_iterations(mutator, DEFAULT_MUTATIONAL_MAX_ITERATIONS, registry)
    }

    /// Creates a new transforming mutational stage with the given max
    /// iterations; the registry hands it the process-unique suffix that
    /// keeps its restart counter apart from other instances.
    pub fn transforming_with_max_iterations(
        mutator: M,
        max_iterations: usize,
        registry: &mut StageRegistry,
    ) -> (r: Self)
        requires
            1 <= max_iterations,
            old(registry).spec_next_id() < u64::MAX,
        ensures
            r.wf(),
            r.spec_id() == old(registry).spec_next_id(),
            final(registry).spec_next_id() == old(registry).spec_next_id() + 1,
            r.spec_mutator() == mutator,
            r.spec_max_iterations() == max_iterations,
            r.spec_name() == "mutational"@ + seq![':'] + decimal_digits(r.spec_id()),
    {
        let stage_id = registry.fresh_id();
        StdMutationalStage {
            name: format_stage_name("mutational", stage_id),
            id: stage_id,
            mutator,
            max_iterations,
        }
    }

    /// The stage's display name: the base name plus its unique suffix.
    pub fn name(&self) -> (r: &String)
        ensures
            r@ == self.spec_name(),
    {
        &self.name
    }

    /// Gets the number of iterations as a random number: a fresh draw in
    /// `[1, max_iterations]` on every stage invocation.
    pub fn iterations<I>(&self, state: &mut StdState<I>) -> (r: Result<usize, Error>)
        requires
            self.wf(),
        ensures
            r matches Ok(n) && 1 <= n <= self.spec_max_iterations(),
            final(state).current == old(state).current,
            final(state).restart_helper == old(state).restart_helper,
            final(state).cmp_values_metadata == old(state).cmp_values_metadata,
            final(state).aflpp_cmp_values_metadata == old(state).aflpp_cmp_values_metadata,
    {
        Ok(1 + rand_below(&mut state.rand, self.max_iterations))
    }

    /// One stage invocation: draw the iteration count, then run the
    /// mutational pass for the currently selected corpus entry.
    pub fn perform<E, EM, I, Z>(
        &mut self,
        fuzzer: &mut Z,
        executor: &mut E,
        state: &mut StdState<I>,
        manager: &mut EM,
    ) -> (r: Result<(), Error>) where
        I: Clone + MutatedTransform<I>,
        M: Mutator<I>,
        Z: Evaluator<E, EM, I>,

        requires
            old(self).wf(),
        ensures
            final(self).wf(),
            final(self).spec_id() == old(self).spec_id(),
            final(self).spec_max_iterations() == old(self).spec_max_iterations(),
            old(fuzzer).spec_eval_count() <= final(fuzzer).spec_eval_count() <= old(fuzzer).spec_eval_count() + old(self).spec_max_iterations(),
            old(state).current is None ==> (r matches Err(Error::IllegalState) && final(fuzzer).spec_eval_count() == old(fuzzer).spec_eval_count()),
            (old(state).current matches Some(tc) && !I::can_transform_from(tc)) ==> r is Ok
                && final(fuzzer).spec_eval_count() == old(fuzzer).spec_eval_count(),
            old(self).spec_mutator().spec_always_skips() ==> final(fuzzer).spec_eval_count() == old(fuzzer).spec_eval_count(),
            (old(self).spec_mutator().spec_always_skips() && old(state).current is Some) ==> r
                is Ok,
            ({
                &&& r is Ok
                &&& old(self).spec_mutator().spec_always_mutates()
                &&& old(state).current matches Some(tc)
                &&& I::can_transform_from(tc)
            }) ==> old(fuzzer).spec_eval_count() + 1 <= final(fuzzer).spec_eval_count() <= old(fuzzer).spec_eval_count() + old(self).spec_max_iterations(),
    {
        let num = match self.iterations(state) {
            Ok(n) => n,
            Err(e) => {
                return Err(e);
            },
        };
        perform_mutational(fuzzer, executor, state, manager, &mut self.mutator, num)
    }

    /// Whether this stage may (re-)run on the current corpus entry: up to
    /// 3 recorded entries without normal completion are allowed, so the
    /// process-restart machinery re-enters a crashed stage at most 3 times
    /// before giving up on this entry.
    pub fn should_restart<I>(&mut self, state: &mut StdState<I>) -> (r: Result<bool, Error>)
        ensures
            *final(self) == *old(self),
            final(state).restart_helper.spec_count(old(self).spec_id()) == next_entry_count(
                old(state).restart_helper.spec_count(old(self).spec_id()),
            ),
            r matches Ok(b) && b == (final(state).restart_helper.spec_count(old(self).spec_id())
                <= 3),
            forall|other: u64|
                other != old(self).spec_id() ==> final(state).restart_helper.spec_count(other)
                    == old(state).restart_helper.spec_count(other),
            final(state).rand == old(state).rand,
            final(state).current == old(state).current,
            final(state).cmp_values_metadata == old(state).cmp_values_metadata,
            final(state).aflpp_cmp_values_metadata == old(state).aflpp_cmp_values_metadata,
    {
        Ok(state.restart_helper.should_restart(self.id, 3))
    }

    /// Reset this stage's restart counter: the stage completed normally.
    pub fn clear_progress<I>(&mut self, state: &mut StdState<I>) -> (r: Result<(), Error>)
        ensures
            *final(self) == *old(self),
            r is Ok,
            final(state).restart_helper.spec_count(old(self).spec_id()) == 0,
            forall|other: u64|
                other != old(self).spec_id() ==> final(state).restart_helper.spec_count(other)
                    == old(state).restart_helper.spec_count(other),
            final(state).rand == old(state).rand,
            final(state).current == old(state).current,
            final(state).cmp_values_metadata == old(state).cmp_values_metadata,
            final(state).aflpp_cmp_values_metadata == old(state).aflpp_cmp_values_metadata,
    {
        state.restart_helper.clear_progress(self.id);
        Ok(())
    }
}

/// A mutational stage that operates on multiple inputs, as returned by
/// [`MultiMutator::multi_mutate`]: the entry is transformed once, the
/// mutator produces the whole batch in one call, and every batch member is
/// evaluated in sequence.  The mutator controls the batch size; no
/// iteration count is drawn.
#[derive(Debug)]
pub struct MultiMutationalStage<M> {
    name: String,
    id: u64,
    mutator: M,
}

impl<M> MutationalStage for MultiMutationalStage<M> {
    type Mutator = M;

    closed spec fn spec_mutator(&self) -> M {
        self.mutator
    }

    fn mutator(&self) -> (r: &M) {
        &self.mutator
    }

    fn mutator_mut(&mut self) -> (r: &mut M) {
        &mut self.mutator
    }
}

impl<M> MultiMutationalStage<M> {
    /// The process-unique id that keys this stage's restart counter.
    pub closed spec fn spec_id(&self) -> u64 {
        self.id
    }

    /// The stage's display name.
    pub closed spec fn spec_name(&self) -> Seq<char> {
        self.name@
    }

    /// Creates a new [`MultiMutationalStage`]
    pub fn new(mutator: M, registry: &mut StageRegistry) -> (r: Self)
        requires
            old(registry).spec_next_id() < u64::MAX,
        ensures
            r.spec_id() == old(registry).spec_next_id(),
            final(registry).spec_next_id() == old(registry).spec_next_id() + 1,
            r.spec_mutator() == mutator,
            r.spec_name() == "multimutational"@ + seq![':'] + decimal_digits(r.spec_id()),
    {
        Self::transforming(mutator, registry)
    }

    /// Creates a new transforming mutational stage
    pub fn transforming(mutator: M, registry: &mut StageRegistry) -> (r: Self)
        requires
            old(registry).spec_next_id() < u64::MAX,
        ensures
            r.spec_id() == old(registry).spec_next_id(),
            final(registry).spec_next_id() == old(registry).spec_next_id() + 1,
            r.spec_mutator() == mutator,
            r.spec_name() == "multimutational"@ + seq![':'] + decimal_digits(r.spec_id()),
    {
        let stage_id = registry.fresh_id();
        MultiMutationalStage {
            name: format_stage_name("multimutational", stage_id),
            id: stage_id,
            mutator,
        }
    }

    /// The stage's display name: the base name plus its unique suffix.
    pub fn name(&self) -> (r: &String)
        ensures
            r@ == self.spec_name(),
    {
        &self.name
    }

    /// One stage invocation: transform the current corpus entry once — a
    /// transform failure forfeits the pass silently — obtain the batch of
    /// variants, and evaluate each member in sequence, running the batch
    /// post-hook and the transform post-hook per member.
    pub fn perform<E, EM, I, Z>(
        &mut self,
        fuzzer: &mut Z,
        executor: &mut E,
        state: &mut StdState<I>,
        manager: &mut EM,
    ) -> (r: Result<(), Error>) where
        I: Clone + MutatedTransform<I>,
        M: MultiMutator<I>,
        Z: Evaluator<E, EM, I>,

        ensures
            final(self).spec_id() == old(self).spec_id(),
            old(fuzzer).spec_eval_count() <= final(fuzzer).spec_eval_count(),
            old(state).current is None ==> (r matches Err(Error::IllegalState) && final(fuzzer).spec_eval_count() == old(fuzzer).spec_eval_count()),
            (old(state).current matches Some(tc) && !I::can_transform_from(tc)) ==> r is Ok
                && final(fuzzer).spec_eval_count() == old(fuzzer).spec_eval_count(),
            final(self).spec_mutator().spec_has_fixed_batch() == old(
                self,
            ).spec_mutator().spec_has_fixed_batch(),
            final(self).spec_mutator().spec_batch_len() == old(
                self,
            ).spec_mutator().spec_batch_len(),
            ({
                &&& r is Ok
                &&& old(state).current matches Some(tc)
                &&& I::can_transform_from(tc)
                &&& old(self).spec_mutator().spec_has_fixed_batch()
            }) ==> final(fuzzer).spec_eval_count() == old(fuzzer).spec_eval_count() + old(
                self,
            ).spec_mutator().spec_batch_len(),
    {
        let mut testcase = match state.current.take() {
            Some(tc) => tc,
            None => {
                return Err(Error::IllegalState);
            },
        };
        let transformed = I::try_transform_from(&mut testcase, state);
        state.current = Some(testcase);
        let input = match transformed {
            Ok(input) => input,
            Err(_) => {
                return Ok(());
            },
        };
        let mut generated = match self.mutator.multi_mutate(state, &input, None) {
            Ok(batch) => batch,
            Err(e) => {
                return Err(e);
            },
        };
        let ghost batch_size = generated@.len();
        while generated.len() > 0
            invariant
                old(state).current is Some,
                I::can_transform_from(old(state).current.unwrap()),
                self.id == old(self).spec_id(),
                self.mutator.spec_has_fixed_batch() == old(self).spec_mutator().spec_has_fixed_batch(),
                self.mutator.spec_batch_len() == old(self).spec_mutator().spec_batch_len(),
                old(self).spec_mutator().spec_has_fixed_batch() ==> batch_size == old(
                    self,
                ).spec_mutator().spec_batch_len(),
                generated@.len() <= batch_size,
                fuzzer.spec_eval_count() == old(fuzzer).spec_eval_count() + batch_size
                    - generated@.len(),
            decreases generated@.len(),
        {
            let new_input = generated.remove(0);
            // Time is measured directly in the evaluator
            let (untransformed, post) = match new_input.try_transform_into(state) {
                Ok(pair) => pair,
                Err(e) => {
                    return Err(e);
                },
            };
            let corpus_id = match fuzzer.evaluate_input(state, executor, manager, untransformed) {
                Ok((_, id)) => id,
                Err(e) => {
                    return Err(e);
                },
            };
            match self.mutator.multi_post_exec(state, corpus_id) {
                Ok(()) => (),
                Err(e) => {
                    return Err(e);
                },
            }
            match post.post_exec(state, corpus_id) {
                Ok(()) => (),
                Err(e) => {
                    return Err(e);
                },
            }
        }
        Ok(())
    }

    /// Whether this stage may (re-)run on the current corpus entry; see
    /// [`StdMutationalStage::should_restart`].
    pub fn should_restart<I>(&mut self, state: &mut StdState<I>) -> (r: Result<bool, Error>)
        ensures
            *final(self) == *old(self),
            final(state).restart_helper.spec_count(old(self).spec_id()) == next_entry_count(
                old(state).restart_helper.spec_count(old(self).spec_id()),
            ),
            r matches Ok(b) && b == (final(state).restart_helper.spec_count(old(self).spec_id())
                <= 3),
            forall|other: u64|
                other != old(self).spec_id() ==> final(state).restart_helper.spec_count(other)
                    == old(state).restart_helper.spec_count(other),
            final(state).rand == old(state).rand,
            final(state).current == old(state).current,
            final(state).cmp_values_metadata == old(state).cmp_values_metadata,
            final(state).aflpp_cmp_values_metadata == old(state).aflpp_cmp_values_metadata,
    {
        // Make sure we don't get stuck crashing on a single testcase
        Ok(state.restart_helper.should_restart(self.id, 3))
    }

    /// Reset this stage's restart counter: the stage completed normally.
    pub fn clear_progress<I>(&mut self, state: &mut StdState<I>) -> (r: Result<(), Error>)
        ensures
            *final(self) == *old(self),
            r is Ok,
            final(state).restart_helper.spec_count(old(self).spec_id()) == 0,
            forall|other: u64|
                other != old(self).spec_id() ==> final(state).restart_helper.spec_count(other)
                    == old(state).restart_helper.spec_count(other),
            final(state).rand == old(state).rand,
            final(state).current == old(state).current,
            final(state).cmp_values_metadata == old(state).cmp_values_metadata,
            final(state).aflpp_cmp_values_metadata == old(state).aflpp_cmp_values_metadata,
    {
        state.restart_helper.clear_progress(self.id);
        Ok(())
    }
}

} // verus!
