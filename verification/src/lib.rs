//! Core of a coverage-guided fuzzing engine: comparison-trace ("cmplog")
//! capture and reduction, and the mutational-stage control loop.
//!
//! The crate has two halves.  The first models comparison tracing: operand
//! pairs logged at comparison sites ([`cmp::CmpValues`]), the per-execution
//! recording surface ([`cmp::CmpMap`]), the bit-packed record header
//! ([`cmp::AFLppCmpLogHeader`]), and the reduction pass that folds a raw
//! trace into durable metadata ([`observers::CmpValuesMetadata`]).  The
//! second half is the mutational stage: the control loop that transforms a
//! corpus entry, mutates it a bounded number of times, and hands each
//! variant to an external evaluator ([`mutational`]).

use vstd::prelude::*;

pub mod cmp;
pub mod mutational;
pub mod observers;
pub mod sancov_pcguard;
pub mod state;
pub mod stats;

verus! {

/// Identifier of an entry in the external corpus store.
#[derive(Debug, Clone, Copy, PartialEq, Eq, Structural)]
pub struct CorpusId(pub usize);

/// How one execution of the target ended.
#[derive(Debug, Clone, Copy, PartialEq, Eq, Structural)]
pub enum ExitKind {
    /// The target exited normally.
    Normal,
    /// The target crashed.
    Crash,
    /// The target ran out of memory.
    Oom,
    /// The target timed out.
    Timeout,
}

/// Errors surfaced by this crate.
#[derive(Debug, Clone, Copy, PartialEq, Eq, Structural)]
pub enum Error {
    /// An operation was invoked in a state that does not support it,
    /// e.g. a stage was run with no corpus entry currently selected.
    IllegalState,
    /// An external collaborator (map reset, mutator, evaluator) failed.
    External,
}

} // verus!
