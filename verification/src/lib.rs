//! Corpus and scheduling core of a coverage-guided fuzzing engine.
//!
//! The library stores the set of interesting inputs discovered during a
//! fuzzing campaign ([`testcase::Testcase`] values owned by a corpus) and
//! decides, on each iteration, which input to hand to the mutation and
//! execution pipeline next: [`corpus::RandomCorpus`] draws uniformly at
//! random, [`corpus::QueueCorpus`] walks the collection cyclically.
//! [`compiler::classify_wrapper_name`] is the one decision the build-time
//! compiler wrapper makes that is plain computation: telling a C frontend
//! name from a C++ one.

pub mod compiler;
pub mod corpus;
pub mod errors;
pub mod metadata;
pub mod rand;
pub mod testcase;
