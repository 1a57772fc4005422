//! The prover: the three requests, against the engine shipped with the
//! bridge.

use vstd::prelude::*;
use crate::config::{standard_config, EngineConfig};
use crate::invocation::{command_for, Invocation};
use crate::operation::Operation;

verus! {

/// A prover that generates and checks Groth16 proofs through the external
/// engine. It holds no state: every request is answered from the standard
/// settings and the request's own arguments, so repeating a request gives
/// the same run again.
#[derive(Debug, Clone)]
pub struct Groth16Prover;

impl Groth16Prover {
    /// Creates a new [`Groth16Prover`].
    pub fn new() -> Self {
        Groth16Prover
    }

    /// The run that makes the engine compile the circuit and write the
    /// artifacts that proving and verifying need into `build_dir`.
    pub fn build(build_dir: &str) -> (inv: Invocation)
        ensures
            inv@ == command_for(standard_config(), Operation::Build, build_dir@),
    {
        EngineConfig::default().invocation(Operation::Build, build_dir)
    }

    /// The run that makes the engine generate a proof from the inputs in
    /// `build_dir`. The engine writes the proof there; the caller reads it
    /// from the directory once the run has succeeded.
    pub fn prove(&self, build_dir: &str) -> (inv: Invocation)
        ensures
            inv@ == command_for(standard_config(), Operation::Prove, build_dir@),
    {
        EngineConfig::default().invocation(Operation::Prove, build_dir)
    }

    /// The run that makes the engine verify the proof in `build_dir`. That
    /// the run succeeds is the only sign of a valid proof: an invalid proof
    /// and an engine that broke down both end as an execution failure.
    pub fn verify(&self, build_dir: &str) -> (inv: Invocation)
        ensures
            inv@ == command_for(standard_config(), Operation::Verify, build_dir@),
    {
        EngineConfig::default().invocation(Operation::Verify, build_dir)
    }
}

impl Default for Groth16Prover {
    fn default() -> Self {
        Groth16Prover::new()
    }
}

} // verus!
