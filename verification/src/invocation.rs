//! The command line that stands for one request to the engine.

use vstd::prelude::*;
use crate::config::{EngineConfig, EngineConfigView, StreamMode};
use crate::operation::{lemma_token_injective, Operation};
use crate::outcome::{verdict, Failure, ProcessOutcome};

verus! {

/// One run of the engine, ready to be started by the host: the program, its
/// arguments, the directory to start it in, and how to connect its streams.
/// It remembers the operation it was made for, so that a failure can name
/// it.
#[derive(Clone, Debug, PartialEq, Eq)]
pub struct Invocation {
    /// The operation that this run performs.
    pub operation: Operation,
    /// The program to start.
    pub program: String,
    /// Its arguments, in order.
    pub args: Vec<String>,
    /// The working directory of the process, relative to the installation
    /// root.
    pub working_dir: String,
    /// How the standard streams of the process are connected.
    pub streams: StreamMode,
}

/// The mathematical content of an [`Invocation`].
pub struct InvocationView {
    pub operation: Operation,
    pub program: Seq<char>,
    pub args: Seq<Seq<char>>,
    pub working_dir: Seq<char>,
    pub streams: StreamMode,
}

impl View for Invocation {
    type V = InvocationView;

    open spec fn view(&self) -> InvocationView {
        InvocationView {
            operation: self.operation,
            program: self.program@,
            args: self.args.deep_view(),
            working_dir: self.working_dir@,
            streams: self.streams,
        }
    }
}

impl InvocationView {
    /// The whole command line: the program, then its arguments.
    pub open spec fn line(self) -> Seq<Seq<char>> {
        seq![self.program] + self.args
    }
}

/// The arguments that every run starts with, whatever is asked: they tell
/// the runtime to run the engine's entry point.
pub open spec fn launcher_args(config: EngineConfigView) -> Seq<Seq<char>> {
    seq!["run"@, config.entry_point]
}

/// The arguments that carry the request: the operation's token, then the
/// flag `--data` with the data directory as its value. The directory is
/// passed as it was given.
pub open spec fn request_args(op: Operation, data_dir: Seq<char>) -> Seq<Seq<char>> {
    seq![op.token(), "--data"@, data_dir]
}

/// The run that asks the engine described by `config` to perform `op` on
/// `data_dir`.
pub open spec fn command_for(
    config: EngineConfigView,
    op: Operation,
    data_dir: Seq<char>,
) -> InvocationView {
    InvocationView {
        operation: op,
        program: config.runtime,
        args: launcher_args(config) + request_args(op, data_dir),
        working_dir: config.engine_dir,
        streams: config.streams,
    }
}

impl EngineConfig {
    /// Builds the run that asks the engine to perform `op` on `data_dir`.
    /// The directory is neither checked nor normalised: whether it exists
    /// is for the engine to find out.
    pub fn invocation(&self, op: Operation, data_dir: &str) -> (inv: Invocation)
        ensures
            inv@ == command_for(self@, op, data_dir@),
    {
        let mut args: Vec<String> = Vec::new();
        args.push("run".to_string());
        args.push(self.entry_point.clone());
        args.push(op.name().to_string());
        args.push("--data".to_string());
        args.push(data_dir.to_string());
        let inv = Invocation {
            operation: op,
            program: self.runtime.clone(),
            args,
            working_dir: self.engine_dir.clone(),
            streams: self.streams,
        };
        assert(inv@.args =~= launcher_args(self@) + request_args(op, data_dir@));
        inv
    }
}

impl Invocation {
    /// Turns what the host observed of this run into the result of the
    /// request: success when the engine exited with code 0, else the failure
    /// that names this run's operation.
    pub fn conclude(&self, outcome: ProcessOutcome) -> (result: Result<(), Failure>)
        ensures
            result == verdict(self.operation, outcome),
    {
        outcome.result_for(self.operation)
    }
}

/// The command line of a request is the fixed prefix of the configuration
/// followed by exactly three words: the operation's token, `--data`, and the
/// data directory. Nothing of the request reaches the prefix, and nothing
/// follows the directory.
pub proof fn lemma_command_line_shape(config: EngineConfigView, op: Operation, data_dir: Seq<char>)
    ensures
        command_for(config, op, data_dir).line() == seq![config.runtime] + launcher_args(config)
            + request_args(op, data_dir),
        command_for(config, op, data_dir).line().len() == 6,
        command_for(config, op, data_dir).line().subrange(0, 3) == seq![
            config.runtime,
            "run"@,
            config.entry_point,
        ],
        command_for(config, op, data_dir).line().subrange(3, 6) == seq![
            op.token(),
            "--data"@,
            data_dir,
        ],
{
    let line = command_for(config, op, data_dir).line();
    assert(line =~= seq![config.runtime] + launcher_args(config) + request_args(op, data_dir));
    assert(line.subrange(0, 3) =~= seq![config.runtime, "run"@, config.entry_point]);
    assert(line.subrange(3, 6) =~= seq![op.token(), "--data"@, data_dir]);
}

/// The request can be read back from the arguments: two runs with the same
/// arguments ask for the same operation on the same data directory.
pub proof fn lemma_arguments_determine_request(
    config: EngineConfigView,
    op: Operation,
    data_dir: Seq<char>,
    other_op: Operation,
    other_dir: Seq<char>,
)
    requires
        command_for(config, op, data_dir).args == command_for(config, other_op, other_dir).args,
    ensures
        op == other_op,
        data_dir == other_dir,
{
    let args = command_for(config, op, data_dir).args;
    let other_args = command_for(config, other_op, other_dir).args;
    assert(args[2] == op.token() && args[4] == data_dir);
    assert(other_args[2] == other_op.token() && other_args[4] == other_dir);
    lemma_token_injective(op, other_op);
}

} // verus!
