//! A small STARK arithmetization library: a Rescue-like hash pipeline is
//! encoded as an execution trace together with an algebraic constraint
//! system (an AIR) whose vanishing on adjacent row pairs characterizes
//! honestly built traces. Field arithmetic is carried out in the 128-bit
//! prime field of the proving engine; proving and verification themselves
//! are left to that engine.

pub mod field;
pub mod rescue;
pub mod trace;
pub mod air;
pub mod builder;
pub mod chain;
pub mod computation;

pub use air::{PublicInputs, get_pub_inputs};
pub use builder::{build_trace, PIPELINE_LENGTH};
pub use chain::build_do_work_trace;
pub use trace::{Trace, TraceError, TRACE_WIDTH};
