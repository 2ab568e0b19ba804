use docker_sandbox::CmdError;
use docker_sandbox::Container;
use docker_sandbox::ContainerBuilder;
use docker_sandbox::DockerEnv;
use docker_sandbox::Error;
use docker_sandbox::MountStyle;
use docker_sandbox::RunSession;
use docker_sandbox::RunState;
use docker_sandbox::StepAction;

fn strings(parts: &[&str]) -> Vec<String> {
    parts.iter().map(|s| s.to_string()).collect()
}

fn cmd_failure(context: &str) -> CmdError {
    CmdError {
        context: context.to_string(),
    }
}

fn inspect_lines(oom: bool) -> Vec<String> {
    if oom {
        strings(&["[{\"State\": {\"OOMKilled\": true}}]"])
    } else {
        strings(&["[{\"State\": {\"OOMKilled\": false}}]"])
    }
}

fn expect_exec(action: StepAction) -> Vec<String> {
    match action {
        StepAction::Exec(c) => c.args,
        StepAction::Done => panic!("expected a command, got Done"),
    }
}

#[test]
fn inspect_extracts_the_oom_flag() {
    let c = Container::from_id("abc123".to_string());
    assert_eq!(c.inspect(&Ok(inspect_lines(true))).unwrap(), true);
    assert_eq!(c.inspect(&Ok(inspect_lines(false))).unwrap(), false);
}

#[test]
fn inspect_joins_captured_lines() {
    let c = Container::from_id("abc123".to_string());
    let lines = strings(&["[", "  {\"State\": {\"OOMKilled\": true}}", "]"]);
    assert_eq!(c.inspect(&Ok(lines)).unwrap(), true);
}

#[test]
fn inspect_requires_exactly_one_record() {
    let c = Container::from_id("abc123".to_string());
    let none = strings(&["[]"]);
    assert!(matches!(
        c.inspect(&Ok(none)),
        Err(Error::InspectionInvariantViolation { records: 0 })
    ));
    let two = strings(&[
        "[{\"State\": {\"OOMKilled\": false}}, {\"State\": {\"OOMKilled\": false}}]",
    ]);
    assert!(matches!(
        c.inspect(&Ok(two)),
        Err(Error::InspectionInvariantViolation { records: 2 })
    ));
}

#[test]
fn inspect_rejects_malformed_metadata() {
    let c = Container::from_id("abc123".to_string());
    assert!(matches!(
        c.inspect(&Ok(strings(&["not json at all"]))),
        Err(Error::CommandFailure { .. })
    ));
    assert!(matches!(
        c.inspect(&Ok(strings(&["{\"State\": {\"OOMKilled\": true}}"]))),
        Err(Error::CommandFailure { .. })
    ));
    assert!(matches!(
        c.inspect(&Ok(strings(&["[{\"NoState\": 1}]"]))),
        Err(Error::CommandFailure { .. })
    ));
    assert!(matches!(
        c.inspect(&Ok(strings(&["[{\"State\": {\"OOMKilled\": \"yes\"}}]"]))),
        Err(Error::CommandFailure { .. })
    ));
    assert!(matches!(
        c.inspect(&Err(cmd_failure("query failed"))),
        Err(Error::CommandFailure { .. })
    ));
}

#[test]
fn run_passes_start_result_through_without_oom() {
    let c = Container::from_id("abc123".to_string());
    assert!(c.run(Ok(()), Ok(false)).is_ok());
    let r = c.run(Err(cmd_failure("exit status 1")), Ok(false));
    match r {
        Err(Error::CommandFailure { context }) => assert_eq!(context, "exit status 1"),
        other => panic!("unexpected result: {:?}", other),
    }
}

#[test]
fn run_reports_oom_over_any_start_result() {
    let c = Container::from_id("abc123".to_string());
    // A run the engine called successful is replaced by an explicit
    // out-of-memory failure.
    assert!(matches!(
        c.run(Ok(()), Ok(true)),
        Err(Error::OutOfMemory { start_failure: None })
    ));
    // A failed start keeps its own context alongside the out-of-memory fact.
    match c.run(Err(cmd_failure("exit status 137")), Ok(true)) {
        Err(Error::OutOfMemory {
            start_failure: Some(se),
        }) => assert_eq!(se.context, "exit status 137"),
        other => panic!("unexpected result: {:?}", other),
    }
}

#[test]
fn run_propagates_inspection_failure() {
    let c = Container::from_id("abc123".to_string());
    let r = c.run(
        Ok(()),
        Err(Error::InspectionInvariantViolation { records: 2 }),
    );
    assert!(matches!(
        r,
        Err(Error::InspectionInvariantViolation { records: 2 })
    ));
}

fn begin_run() -> (RunSession, Vec<String>) {
    let env = DockerEnv::new("ubuntu");
    let builder = ContainerBuilder::new(&env, MountStyle::Volume).cmd(strings(&["true"]));
    let (session, create) = builder.run(false, "/work");
    (session, create.args)
}

#[test]
fn lifecycle_success_deletes_once() {
    let (session, create_args) = begin_run();
    assert_eq!(create_args, strings(&["create", "ubuntu", "true"]));

    let (session, action) = session.step(Ok(strings(&["cid-1"])));
    assert_eq!(expect_exec(action), strings(&["start", "-a", "cid-1"]));

    let (session, action) = session.step(Ok(Vec::new()));
    assert_eq!(expect_exec(action), strings(&["inspect", "cid-1"]));

    let (session, action) = session.step(Ok(inspect_lines(false)));
    assert_eq!(expect_exec(action), strings(&["rm", "-f", "cid-1"]));

    let (session, action) = session.step(Ok(Vec::new()));
    assert!(matches!(action, StepAction::Done));
    assert!(matches!(session.result(), Some(Ok(()))));
    match session.state {
        RunState::Finished { delete_failed, .. } => assert!(!delete_failed),
        _ => panic!("session not finished"),
    }
}

#[test]
fn lifecycle_failed_start_still_deletes() {
    let (session, _) = begin_run();
    let (session, _) = session.step(Ok(strings(&["cid-2"])));
    let (session, action) = session.step(Err(cmd_failure("exit status 1")));
    assert_eq!(expect_exec(action), strings(&["inspect", "cid-2"]));
    let (session, action) = session.step(Ok(inspect_lines(false)));
    assert_eq!(expect_exec(action), strings(&["rm", "-f", "cid-2"]));
    let (session, action) = session.step(Ok(Vec::new()));
    assert!(matches!(action, StepAction::Done));
    match session.result() {
        Some(Err(Error::CommandFailure { context })) => assert_eq!(context, "exit status 1"),
        other => panic!("unexpected result: {:?}", other),
    }
}

#[test]
fn lifecycle_oom_overrides_success() {
    let (session, _) = begin_run();
    let (session, _) = session.step(Ok(strings(&["cid-3"])));
    let (session, _) = session.step(Ok(Vec::new()));
    let (session, action) = session.step(Ok(inspect_lines(true)));
    assert_eq!(expect_exec(action), strings(&["rm", "-f", "cid-3"]));
    let (session, action) = session.step(Ok(Vec::new()));
    assert!(matches!(action, StepAction::Done));
    assert!(matches!(
        session.result(),
        Some(Err(Error::OutOfMemory { start_failure: None }))
    ));
}

#[test]
fn lifecycle_failed_create_owes_nothing() {
    let (session, _) = begin_run();
    let (session, action) = session.step(Err(cmd_failure("engine offline")));
    assert!(matches!(action, StepAction::Done));
    assert!(matches!(
        session.result(),
        Some(Err(Error::CommandFailure { .. }))
    ));

    // An empty capture carries no container id: the run fails before any
    // container exists, so no delete is owed either.
    let (session2, _) = begin_run();
    let (session2, action) = session2.step(Ok(Vec::new()));
    assert!(matches!(action, StepAction::Done));
    assert!(matches!(
        session2.result(),
        Some(Err(Error::CommandFailure { .. }))
    ));
}

#[test]
fn lifecycle_reports_failed_cleanup_on_the_side() {
    let (session, _) = begin_run();
    let (session, _) = session.step(Ok(strings(&["cid-4"])));
    let (session, _) = session.step(Ok(Vec::new()));
    let (session, _) = session.step(Ok(inspect_lines(false)));
    // The deletion itself fails; the run's own result is preserved.
    let (session, action) = session.step(Err(cmd_failure("already removed")));
    assert!(matches!(action, StepAction::Done));
    assert!(matches!(session.result(), Some(Ok(()))));
    match session.state {
        RunState::Finished { delete_failed, .. } => assert!(delete_failed),
        _ => panic!("session not finished"),
    }
}

#[test]
fn container_handle_accessors() {
    let from = Container::from_create_outcome(&Ok(strings(&["cid-9", "noise"]))).unwrap();
    assert_eq!(from.id(), "cid-9");
    assert_eq!(from.delete().args, strings(&["rm", "-f", "cid-9"]));
    assert_eq!(from.start_command(true).args, strings(&["start", "-a", "cid-9"]));
    assert!(from.start_command(true).quiet);
    assert_eq!(from.inspect_command().args, strings(&["inspect", "cid-9"]));

    assert!(Container::from_create_outcome(&Ok(Vec::new())).is_err());
    assert!(Container::from_create_outcome(&Err(cmd_failure("engine offline"))).is_err());
}

#[test]
fn errors_expose_their_kind() {
    let oom = Error::OutOfMemory {
        start_failure: None,
    };
    assert!(oom.is_out_of_memory());
    let cmd = Error::CommandFailure {
        context: "context".to_string(),
    };
    assert!(!cmd.is_out_of_memory());
}
