use flockmind::runner::{ProcessOutcome, RunError, RunStep, TaskRunner};
use flockmind::types::TaskPayload;

fn exited(success: bool, code: Option<i32>, stdout: &str, stderr: &str) -> ProcessOutcome {
    ProcessOutcome::Exited {
        success,
        code,
        stdout: stdout.to_string(),
        stderr: stderr.to_string(),
    }
}

fn json(text: &str) -> serde_json::Value {
    serde_json::from_str(text).unwrap()
}

#[test]
fn runner_timeouts() {
    assert_eq!(TaskRunner::new().timeout_secs(), 300);
    assert_eq!(TaskRunner::default().timeout_secs(), 300);
    assert_eq!(TaskRunner::with_timeout(7).timeout_secs(), 7);
}

#[test]
fn echo_answers_at_once() {
    let step = TaskRunner::new().start(&TaskPayload::Echo { message: "hi \"there\"".to_string() });
    match step {
        RunStep::Done(Ok(text)) => {
            assert_eq!(text, "{\"echoed\":\"hi \\\"there\\\"\"}");
            assert_eq!(json(&text)["echoed"], serde_json::Value::String("hi \"there\"".to_string()));
        }
        other => panic!("{:?}", other),
    }
}

#[test]
fn refused_payloads() {
    let runner = TaskRunner::new();
    match runner.start(&TaskPayload::RunCommand { command: "ls".to_string(), args: vec![] }) {
        RunStep::Done(Err(e)) => assert_eq!(e.message(), "Arbitrary command execution is disabled"),
        other => panic!("{:?}", other),
    }
    match runner.start(&TaskPayload::Custom { tool_id: "x".to_string(), args: "{}".to_string() }) {
        RunStep::Done(Err(e)) => assert_eq!(e.message(), "Custom tool 'x' not implemented"),
        other => panic!("{:?}", other),
    }
}

#[test]
fn processes_and_their_timeouts() {
    let runner = TaskRunner::with_timeout(11);
    match runner.start(&TaskPayload::CheckService { service_name: "nginx".to_string() }) {
        RunStep::Spawn(p) => {
            assert_eq!((p.program.as_str(), p.timeout_secs), ("systemctl", 30));
            assert_eq!(p.args, vec!["is-active", "nginx"]);
            assert!(p.must_exist.is_none());
        }
        other => panic!("{:?}", other),
    }
    match runner.start(&TaskPayload::RestartService { service_name: "nginx".to_string() }) {
        RunStep::Spawn(p) => {
            assert_eq!((p.program.as_str(), p.timeout_secs), ("systemctl", 60));
            assert_eq!(p.args, vec!["restart", "nginx"]);
        }
        other => panic!("{:?}", other),
    }
    match runner.start(&TaskPayload::SyncDirectory { src: "/a".to_string(), dst: "/b".to_string() }) {
        RunStep::Spawn(p) => {
            assert_eq!((p.program.as_str(), p.timeout_secs), ("rsync", 11));
            assert_eq!(p.args, vec!["-av", "--delete", "/a", "/b"]);
            assert_eq!(p.must_exist, Some("/a".to_string()));
        }
        other => panic!("{:?}", other),
    }
    match runner.start(&TaskPayload::DockerRun {
        image: "img".to_string(),
        args: vec!["-e".to_string(), "A=1".to_string()],
    }) {
        RunStep::Spawn(p) => {
            assert_eq!((p.program.as_str(), p.timeout_secs), ("docker", 11));
            assert_eq!(p.args, vec!["run", "--rm", "-e", "A=1", "img"]);
        }
        other => panic!("{:?}", other),
    }
}

#[test]
fn what_a_service_check_means() {
    let runner = TaskRunner::new();
    let task = TaskPayload::CheckService { service_name: "nginx".to_string() };
    let v = json(&runner.finish(&task, &exited(true, Some(0), "  active\n", "")).unwrap());
    assert_eq!(v, json(r#"{"service":"nginx","status":"active","is_active":true}"#));
    let v = json(&runner.finish(&task, &exited(false, Some(3), "inactive\n", "")).unwrap());
    assert_eq!(v, json(r#"{"service":"nginx","status":"inactive","is_active":false}"#));
    let v = json(&runner.finish(&task, &exited(false, None, "active", "")).unwrap());
    assert_eq!(v["is_active"], serde_json::Value::Bool(false));
}

#[test]
fn what_the_other_processes_mean() {
    let runner = TaskRunner::new();
    let restart = TaskPayload::RestartService { service_name: "nginx".to_string() };
    let v = json(&runner.finish(&restart, &exited(true, Some(0), "", "")).unwrap());
    assert_eq!(v, json(r#"{"service":"nginx","action":"restarted","success":true}"#));
    let e = runner.finish(&restart, &exited(false, Some(1), "", "denied")).unwrap_err();
    assert_eq!(e.message(), "Failed to restart nginx: denied");

    let sync = TaskPayload::SyncDirectory { src: "/a".to_string(), dst: "/b".to_string() };
    let many: String = (0..25).map(|i| format!("line {}\r\n", i)).collect();
    let v = json(&runner.finish(&sync, &exited(true, Some(0), &many, "")).unwrap());
    let expected: Vec<String> = (0..20).map(|i| format!("line {}", i)).collect();
    assert_eq!(v["output"], serde_json::Value::String(expected.join("\n")));
    assert_eq!(v["src"], serde_json::Value::String("/a".to_string()));
    assert_eq!(v["dst"], serde_json::Value::String("/b".to_string()));
    assert_eq!(v["success"], serde_json::Value::Bool(true));
    let e = runner.finish(&sync, &exited(false, Some(23), "", "partial")).unwrap_err();
    assert_eq!(e.message(), "rsync failed: partial");
    let e = runner.finish(&sync, &ProcessOutcome::SourceMissing).unwrap_err();
    assert_eq!(e.message(), "Source path does not exist: /a");

    let docker = TaskPayload::DockerRun { image: "img".to_string(), args: vec![] };
    let v = json(&runner.finish(&docker, &exited(true, Some(0), "a\nb", "\nw\n")).unwrap());
    assert_eq!(v, json(r#"{"image":"img","exit_code":0,"stdout":"a\nb","stderr":"\nw"}"#));
    let v = json(&runner.finish(&docker, &exited(true, None, "", "")).unwrap());
    assert_eq!(v["exit_code"], serde_json::Value::Null);
    assert_eq!(v["stdout"], serde_json::Value::String(String::new()));
    let e = runner.finish(&docker, &exited(false, Some(125), "", "no image")).unwrap_err();
    assert_eq!(e.message(), "Docker run failed: no image");
}

#[test]
fn failures_of_the_process_itself() {
    let runner = TaskRunner::new();
    let check = TaskPayload::CheckService { service_name: "s".to_string() };
    let e = runner.finish(&check, &ProcessOutcome::TimedOut).unwrap_err();
    assert!(matches!(e, RunError::Timeout));
    assert_eq!(e.message(), "deadline has elapsed");
    let e = runner
        .finish(&check, &ProcessOutcome::SpawnFailed { message: "not found".to_string() })
        .unwrap_err();
    assert_eq!(e.message(), "not found");
    let echo = TaskPayload::Echo { message: "m".to_string() };
    assert!(matches!(runner.finish(&echo, &exited(true, Some(0), "", "")), Err(RunError::NoProcess)));
    assert!(matches!(runner.finish(&check, &ProcessOutcome::SourceMissing), Err(RunError::NoProcess)));
}
