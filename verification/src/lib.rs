//! Heuristic exploit and vulnerability detection for chain transactions and
//! deployed program bytecode: evidence is normalized into an execution trace,
//! a fixed registry of pure detection rules runs over it, findings are
//! aggregated into a bounded risk score, and results are memoized per request
//! key in a bounded least-recently-used cache.

pub mod models;
pub mod analyzer;
pub mod bytecode;
pub mod cache;
pub mod decimal;
pub mod detector;
pub mod scan;
pub mod scoring;
pub mod simulator;
