//! How a run of the engine ended, and what that means for the caller.

use vstd::prelude::*;
use crate::operation::Operation;

verus! {

/// The status with which a process that did start came to its end.
#[derive(Clone, Copy, Debug, PartialEq, Eq, Structural)]
pub enum Termination {
    /// The process exited and left this exit code.
    Code(i32),
    /// The process ended without an exit code: it was terminated by a
    /// signal, or the platform could not tell how it ended.
    Unknown,
}

impl Termination {
    /// A process succeeded when it exited with code 0, and only then.
    pub open spec fn is_success(self) -> bool {
        self == Termination::Code(0)
    }

    /// Whether this status is the successful one.
    pub fn success(self) -> (ok: bool)
        ensures
            ok == self.is_success(),
    {
        match self {
            Termination::Code(code) => code == 0,
            Termination::Unknown => false,
        }
    }
}

/// What the host observed when it tried to run the engine once.
#[derive(Clone, Copy, Debug, PartialEq, Eq, Structural)]
pub enum ProcessOutcome {
    /// The process could not be started at all: the runtime or the entry
    /// point is missing, the working directory does not exist, or
    /// permission was denied.
    LaunchFailed,
    /// The process started, ran, and ended with this status.
    Terminated(Termination),
}

/// Why a request did not succeed. Either kind is final for the call that
/// got it: nothing is retried.
#[derive(Clone, Copy, Debug, PartialEq, Eq, Structural)]
pub enum Failure {
    /// The engine never ran.
    Launch { operation: Operation },
    /// The engine ran and ended with a status other than success.
    Execution { operation: Operation, status: Termination },
}

impl Failure {
    /// The operation that was asked for when this failure arose.
    pub open spec fn spec_operation(self) -> Operation {
        match self {
            Failure::Launch { operation } => operation,
            Failure::Execution { operation, .. } => operation,
        }
    }

    /// The operation that was asked for when this failure arose.
    #[verifier::when_used_as_spec(spec_operation)]
    pub fn operation(self) -> (op: Operation)
        ensures
            op == self.spec_operation(),
    {
        match self {
            Failure::Launch { operation } => operation,
            Failure::Execution { operation, .. } => operation,
        }
    }

    /// Whether the engine failed to start, as opposed to having run and
    /// failed.
    pub fn is_launch(self) -> (launch: bool)
        ensures
            launch == (self is Launch),
    {
        match self {
            Failure::Launch { .. } => true,
            Failure::Execution { .. } => false,
        }
    }
}

/// The result that the caller of `op` gets when the host observed `outcome`.
pub open spec fn verdict(op: Operation, outcome: ProcessOutcome) -> Result<(), Failure> {
    match outcome {
        ProcessOutcome::LaunchFailed => Err(Failure::Launch { operation: op }),
        ProcessOutcome::Terminated(status) => if status.is_success() {
            Ok(())
        } else {
            Err(Failure::Execution { operation: op, status })
        },
    }
}

impl ProcessOutcome {
    /// Maps the outcome of one run to the result of the request that caused
    /// it. Success carries no value; a failure carries the operation and,
    /// where the engine ran, the raw status it ended with.
    pub fn result_for(self, op: Operation) -> (result: Result<(), Failure>)
        ensures
            result == verdict(op, self),
    {
        match self {
            ProcessOutcome::LaunchFailed => Err(Failure::Launch { operation: op }),
            ProcessOutcome::Terminated(status) => {
                if status.success() {
                    Ok(())
                } else {
                    Err(Failure::Execution { operation: op, status })
                }
            },
        }
    }
}

/// A request succeeds exactly when the engine started and exited with
/// code 0.
pub proof fn lemma_success_iff_exit_zero(op: Operation, outcome: ProcessOutcome)
    ensures
        verdict(op, outcome) is Ok <==> outcome == ProcessOutcome::Terminated(Termination::Code(0)),
{
}

/// Every failure names the operation that was asked for, and an execution
/// failure carries the status of the process unchanged.
pub proof fn lemma_failure_carries_request(op: Operation, outcome: ProcessOutcome)
    requires
        verdict(op, outcome) is Err,
    ensures
        verdict(op, outcome)->Err_0.spec_operation() == op,
        outcome matches ProcessOutcome::Terminated(status) ==> verdict(op, outcome)
            == Err::<(), Failure>(Failure::Execution { operation: op, status }),
{
}

/// A launch error is reported exactly when the process could not be
/// started, so it can never be taken for the failure of an engine that ran.
pub proof fn lemma_launch_error_is_distinct(op: Operation, outcome: ProcessOutcome)
    ensures
        verdict(op, outcome) == Err::<(), Failure>(Failure::Launch { operation: op })
            <==> outcome is LaunchFailed,
        outcome is Terminated ==> !(verdict(op, outcome) matches Err(failure) && failure is Launch),
{
}

} // verus!
