//! Where the engine is found and how it is started.

use vstd::prelude::*;

verus! {

/// The program that runs the engine's entry point.
pub const RUNTIME: &'static str = "go";

/// The engine's directory, relative to the root under which the bridge is
/// installed. The engine runs with this directory as its working directory.
pub const WORKER_PATH: &'static str = "./worker";

/// The engine's entry point, relative to the engine's directory.
pub const EXE_PATH: &'static str = "./bin/local_worker.go";

/// What becomes of the engine's standard streams while it runs.
#[derive(Clone, Copy, Debug, PartialEq, Eq, Structural)]
pub enum StreamMode {
    /// The engine reads and writes the caller's own streams, so prompts and
    /// progress output pass through as they come.
    Inherit,
    /// The host buffers what the engine writes and hands it to its caller
    /// once the engine has ended.
    Capture,
    /// What the engine writes is thrown away.
    Discard,
}

/// The settings of one bridge. They are fixed when the bridge is made and
/// only read afterwards.
#[derive(Clone, Debug, PartialEq, Eq)]
pub struct EngineConfig {
    /// The program that runs the entry point.
    pub runtime: String,
    /// The entry point, relative to `engine_dir`.
    pub entry_point: String,
    /// The working directory of the engine, relative to the installation
    /// root.
    pub engine_dir: String,
    /// How the engine's standard streams are connected.
    pub streams: StreamMode,
}

/// The mathematical content of an [`EngineConfig`].
pub struct EngineConfigView {
    pub runtime: Seq<char>,
    pub entry_point: Seq<char>,
    pub engine_dir: Seq<char>,
    pub streams: StreamMode,
}

impl View for EngineConfig {
    type V = EngineConfigView;

    open spec fn view(&self) -> EngineConfigView {
        EngineConfigView {
            runtime: self.runtime@,
            entry_point: self.entry_point@,
            engine_dir: self.engine_dir@,
            streams: self.streams,
        }
    }
}

/// The settings that reach the engine shipped with the bridge, with its
/// streams inherited from the caller.
pub open spec fn standard_config() -> EngineConfigView {
    EngineConfigView {
        runtime: RUNTIME@,
        entry_point: EXE_PATH@,
        engine_dir: WORKER_PATH@,
        streams: StreamMode::Inherit,
    }
}

impl EngineConfig {
    /// Settings for an engine at another place, or with other streams.
    pub fn new(runtime: &str, entry_point: &str, engine_dir: &str, streams: StreamMode) -> (config:
        Self)
        ensures
            config@ == (EngineConfigView {
                runtime: runtime@,
                entry_point: entry_point@,
                engine_dir: engine_dir@,
                streams,
            }),
    {
        EngineConfig {
            runtime: runtime.to_string(),
            entry_point: entry_point.to_string(),
            engine_dir: engine_dir.to_string(),
            streams,
        }
    }
}

impl Default for EngineConfig {
    fn default() -> (config: Self)
        ensures
            config@ == standard_config(),
    {
        EngineConfig::new(RUNTIME, EXE_PATH, WORKER_PATH, StreamMode::Inherit)
    }
}

} // verus!
