use groth16_bridge::{
    EngineConfig, Groth16Prover, Invocation, Operation, StreamMode, EXE_PATH, RUNTIME, WORKER_PATH,
};

fn words(inv: &Invocation) -> Vec<&str> {
    inv.args.iter().map(|s| s.as_str()).collect()
}

#[test]
fn test_build() {
    let root = std::path::PathBuf::from(".");
    let gnark_dir = root.join(WORKER_PATH);
    let binding = gnark_dir.join("./testdata");
    let build_dir = binding.to_str().expect("join build dir error");
    let inv = Groth16Prover::build(build_dir);
    assert_eq!(inv.operation, Operation::Build);
    assert_eq!(inv.program, "go");
    assert_eq!(
        words(&inv),
        vec!["run", "./bin/local_worker.go", "build", "--data", build_dir]
    );
    assert_eq!(inv.working_dir, "./worker");
}

#[test]
fn test_prove() {
    let root = std::path::PathBuf::from(".");
    let gnark_dir = root.join(WORKER_PATH);
    let binding = gnark_dir.join("./testdata");
    let build_dir = binding.to_str().expect("join build dir error");
    let prover = Groth16Prover::new();
    let inv = prover.prove(build_dir);
    assert_eq!(inv.operation, Operation::Prove);
    assert_eq!(inv.program, "go");
    assert_eq!(
        words(&inv),
        vec!["run", "./bin/local_worker.go", "prove", "--data", build_dir]
    );
    assert_eq!(inv.working_dir, "./worker");
}

#[test]
fn test_verify() {
    let root = std::path::PathBuf::from(".");
    let gnark_dir = root.join(WORKER_PATH);
    let binding = gnark_dir.join("./testdata");
    let build_dir = binding.to_str().expect("join build dir error");
    let prover = Groth16Prover::new();
    let inv = prover.verify(build_dir);
    assert_eq!(inv.operation, Operation::Verify);
    assert_eq!(inv.program, "go");
    assert_eq!(
        words(&inv),
        vec!["run", "./bin/local_worker.go", "verify", "--data", build_dir]
    );
    assert_eq!(inv.working_dir, "./worker");
}

#[test]
fn constants_name_the_shipped_engine() {
    assert_eq!(RUNTIME, "go");
    assert_eq!(WORKER_PATH, "./worker");
    assert_eq!(EXE_PATH, "./bin/local_worker.go");
}

#[test]
fn default_config_matches_constants() {
    let config = EngineConfig::default();
    assert_eq!(config.runtime, RUNTIME);
    assert_eq!(config.entry_point, EXE_PATH);
    assert_eq!(config.engine_dir, WORKER_PATH);
    assert_eq!(config.streams, StreamMode::Inherit);
    assert_eq!(
        config,
        EngineConfig::new("go", "./bin/local_worker.go", "./worker", StreamMode::Inherit)
    );
}

#[test]
fn new_config_keeps_every_field() {
    let config = EngineConfig::new("node", "fixture.js", "/tmp/engine", StreamMode::Capture);
    assert_eq!(config.runtime, "node");
    assert_eq!(config.entry_point, "fixture.js");
    assert_eq!(config.engine_dir, "/tmp/engine");
    assert_eq!(config.streams, StreamMode::Capture);
}

#[test]
fn operation_tokens() {
    assert_eq!(Operation::Build.name(), "build");
    assert_eq!(Operation::Prove.name(), "prove");
    assert_eq!(Operation::Verify.name(), "verify");
}

#[test]
fn operation_tokens_are_pairwise_distinct() {
    let ops = [Operation::Build, Operation::Prove, Operation::Verify];
    for a in ops {
        for b in ops {
            assert_eq!(a.name() == b.name(), a == b);
        }
    }
}

#[test]
fn prover_runs_use_the_standard_settings() {
    let prover = Groth16Prover::default();
    let config = EngineConfig::default();
    assert_eq!(
        Groth16Prover::build("./testdata"),
        config.invocation(Operation::Build, "./testdata")
    );
    assert_eq!(
        prover.prove("./testdata"),
        config.invocation(Operation::Prove, "./testdata")
    );
    assert_eq!(
        prover.verify("./testdata"),
        config.invocation(Operation::Verify, "./testdata")
    );
    assert_eq!(Groth16Prover::build("./testdata").streams, StreamMode::Inherit);
}

#[test]
fn custom_config_reaches_the_command() {
    let config = EngineConfig::new("node", "fixture.js", "fixtures/engine", StreamMode::Discard);
    let inv = config.invocation(Operation::Verify, "out");
    assert_eq!(inv.operation, Operation::Verify);
    assert_eq!(inv.program, "node");
    assert_eq!(words(&inv), vec!["run", "fixture.js", "verify", "--data", "out"]);
    assert_eq!(inv.working_dir, "fixtures/engine");
    assert_eq!(inv.streams, StreamMode::Discard);
}

#[test]
fn request_words_follow_the_fixed_prefix() {
    let config = EngineConfig::default();
    for op in [Operation::Build, Operation::Prove, Operation::Verify] {
        for dir in ["./testdata", "/var/lib/proofs", "a"] {
            let inv = config.invocation(op, dir);
            assert_eq!(inv.args.len(), 5);
            assert_eq!(&inv.args[..2], ["run", "./bin/local_worker.go"]);
            assert_eq!(&inv.args[2..], [op.name(), "--data", dir]);
        }
    }
}

#[test]
fn data_dir_is_passed_as_given() {
    let config = EngineConfig::default();
    for dir in [
        "",
        ".",
        "./testdata/",
        "../a/./b//c",
        "dir with spaces",
        "--data",
        "build",
        "donn\u{e9}es/\u{8bc1}\u{660e}",
    ] {
        let inv = config.invocation(Operation::Prove, dir);
        assert_eq!(inv.args.len(), 5);
        assert_eq!(inv.args[3], "--data");
        assert_eq!(inv.args[4], dir);
    }
}

#[test]
fn repeated_build_gives_the_same_run() {
    let first = Groth16Prover::build("./testdata");
    let second = Groth16Prover::build("./testdata");
    assert_eq!(first, second);
}

#[test]
fn different_requests_give_different_arguments() {
    let config = EngineConfig::default();
    let a = config.invocation(Operation::Build, "./testdata");
    let b = config.invocation(Operation::Prove, "./testdata");
    let c = config.invocation(Operation::Build, "./other");
    assert_ne!(a.args, b.args);
    assert_ne!(a.args, c.args);
    assert_ne!(b.args, c.args);
}
