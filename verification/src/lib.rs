//! The decisions of a single-threaded fuzzer that pairs the MOpt mutator with
//! comparison logging, and of the compiler wrapper that instruments its targets.
//!
//! Everything here works on plain values. Directories, processes, shared memory and
//! the fuzzing engine itself are driven by the program around this library, which asks
//! it what to do next and hands back what happened.

pub mod cli;
pub mod clock;
pub mod compiler;
pub mod lineage;
pub mod replay;
pub mod session;
pub mod startup;
pub mod timeout;
pub mod tokens;

pub use clock::{elapsed_ms, ClockError};
pub use lineage::{LineageFeedback, LineageMutatorWrap, MutationLog, ParentInfo};
