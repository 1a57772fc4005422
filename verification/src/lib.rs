//! A process-boundary bridge to an external Groth16 proving engine.
//!
//! The engine lives in another runtime and is reached only by running it as
//! a child process. This library holds the part of that bridge that decides:
//! which command line stands for a `build`, `prove` or `verify` request, and
//! what the way the process ended means for the caller. Starting the process
//! and waiting for it is left to the host program.

pub mod config;
pub mod groth16;
pub mod invocation;
pub mod operation;
pub mod outcome;

pub use config::{EngineConfig, StreamMode, EXE_PATH, RUNTIME, WORKER_PATH};
pub use groth16::Groth16Prover;
pub use invocation::Invocation;
pub use operation::Operation;
pub use outcome::{Failure, ProcessOutcome, Termination};
