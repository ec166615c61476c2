//! A conditional-release escrow engine.
//!
//! A payer places funds under custody until a deliverable is accepted,
//! rejected, contested, or time-barred.  The engine owns the job records,
//! a per-payee fraud ledger, and the account ledger, and its contracts prove
//! that custodied value is never created, destroyed, or released twice.
//!
//! - `job` and `config` define the records, the lifecycle states, and the
//!   policy switches; `errors` the failure kinds; `split` the payment split
//!   calculator.
//! - `model` is the mathematical side: the engine's abstract state, the
//!   well-formedness facts every reachable state satisfies, and one
//!   transition function per operation.
//! - `escrow` is the executable engine; every operation agrees exactly with
//!   its transition function.
//! - `laws` states and proves the global guarantees: conservation,
//!   solvency, no double release, split correctness, fraud-counter
//!   consistency, lifecycle monotonicity, and authorization.

pub mod config;
pub mod errors;
pub mod escrow;
pub mod job;
pub mod laws;
pub mod model;
pub mod split;
