//! A heuristic rule engine that scans smart-contract source text for
//! hazardous patterns and reports structured findings.
//!
//! - `text`: line indexing and the string operations the rules use.
//! - `pattern`: regular-expression matching and case folding; what they
//!   return is named, and the detectors' contracts are stated over the names.
//! - `context`: the function-context resolver shared by the detectors.
//! - `consensus`, `staking`, `portability`: the detector sets. Each rule's
//!   decision, given what its patterns found, is a function of its own.
//! - `finding`: findings, jobs and results, and deduplication.
//! - `registry`: the address books the detectors consult.
//! - `orchestrator`: what a worker does with each delivery from its queue.
//! - `security`: the result records of the worker that relays an external
//!   analyzer.

pub mod text;
pub mod pattern;
pub mod finding;
pub mod context;
pub mod registry;
pub mod consensus;
pub mod staking;
pub mod portability;
pub mod orchestrator;
pub mod security;
