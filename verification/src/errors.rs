//! Failure taxonomy of the corpus core.
//!
//! Every failure is surfaced synchronously to the caller; the corpus performs
//! no internal retry. An absent removal target is reported as an absent
//! `Option` result, never as one of these variants.

use vstd::prelude::*;

verus! {

/// The recoverable failures of the corpus core.
#[derive(Debug, Clone, Copy, PartialEq, Eq, Structural)]
pub enum Error {
    /// A selection operation (`random_entry`, `get`) was attempted on a
    /// corpus that owns zero entries.
    EmptyCorpus,
    /// Materializing a testcase payload from its backing file failed
    /// (missing, unreadable or malformed file).
    LoadFailure,
    /// An explicitly unfinished code path was invoked; distinct from
    /// `LoadFailure`, which reports a failed attempt.
    Unimplemented,
}

} // verus!
