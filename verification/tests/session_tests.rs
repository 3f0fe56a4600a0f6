use runbox::artifact::fresh_artifact_id;
use runbox::outcome::ExecutionResponse;
use runbox::pipeline::{Action, Event, RequestData, Session};

fn request(code: &str, lang: &str, timeout_secs: Option<u64>, credential: &str) -> RequestData {
    RequestData {
        code: code.to_string(),
        lang: lang.to_string(),
        timeout_secs,
        credential: credential.to_string(),
    }
}

/// Drive one whole request through the machine, answering each demanded
/// action the way a faithful follower that observed `exec_event` would, and
/// return the demanded paths and the final response.
fn drive(
    secret: &str,
    req: RequestData,
    artifact_id: String,
    mut exec_event: Event,
) -> (Vec<String>, ExecutionResponse) {
    let mut session = Session::new(secret.to_string());
    let mut paths: Vec<String> = Vec::new();
    let mut event = Event::Arrived { request: req, artifact_id };
    loop {
        match session.step(event) {
            Some(Action::WriteArtifact { path, .. }) => {
                paths.push(path);
                event = Event::WriteSucceeded;
            }
            Some(Action::RunInterpreter { .. }) => {
                event = std::mem::replace(&mut exec_event, Event::Disposed);
            }
            Some(Action::DisposeArtifact { path }) => {
                paths.push(path);
                event = Event::Disposed;
            }
            Some(Action::Respond { response }) => return (paths, response),
            None => panic!("the machine demanded nothing before responding"),
        }
    }
}

#[test]
fn clean_python_run_walks_the_whole_pipeline() {
    let mut session = Session::new("k".to_string());
    let a = session.step(Event::Arrived {
        request: request("print('hi')", "python", None, "k"),
        artifact_id: "id0".to_string(),
    });
    let written_path = match a {
        Some(Action::WriteArtifact { path, code }) => {
            assert_eq!(code, "print('hi')");
            assert_eq!(path, "/tmp/id0.py");
            path
        }
        other => panic!("expected a write demand, got {:?}", other.is_some()),
    };
    let a = session.step(Event::WriteSucceeded);
    match a {
        Some(Action::RunInterpreter { program, path, deadline_secs }) => {
            assert_eq!(program, "python3");
            assert_eq!(path, written_path);
            assert_eq!(deadline_secs, 5);
        }
        _ => panic!("expected a run demand"),
    }
    let a = session.step(Event::ProcessExited { stdout: b"hi\n".to_vec(), stderr: Vec::new() });
    match a {
        Some(Action::DisposeArtifact { path }) => assert_eq!(path, written_path),
        _ => panic!("expected a disposal demand before any response"),
    }
    let a = session.step(Event::Disposed);
    match a {
        Some(Action::Respond { response }) => {
            assert_eq!(response.output, "hi\n");
            assert_eq!(response.error, None);
        }
        _ => panic!("expected the response"),
    }
}

#[test]
fn clean_javascript_run_uses_node_and_js_extension() {
    let mut session = Session::new("k".to_string());
    let a = session.step(Event::Arrived {
        request: request("console.log('hi')", "javascript", None, "k"),
        artifact_id: "id1".to_string(),
    });
    match a {
        Some(Action::WriteArtifact { path, .. }) => assert_eq!(path, "/tmp/id1.js"),
        _ => panic!("expected a write demand"),
    }
    let a = session.step(Event::WriteSucceeded);
    match a {
        Some(Action::RunInterpreter { program, .. }) => assert_eq!(program, "node"),
        _ => panic!("expected a run demand"),
    }
    session.step(Event::ProcessExited { stdout: b"hi\n".to_vec(), stderr: Vec::new() });
    let a = session.step(Event::Disposed);
    match a {
        Some(Action::Respond { response }) => {
            assert_eq!(response.output, "hi\n");
            assert_eq!(response.error, None);
        }
        _ => panic!("expected the response"),
    }
}

#[test]
fn caller_deadline_overrides_the_default() {
    let mut session = Session::new("k".to_string());
    session.step(Event::Arrived {
        request: request("while True: pass", "python", Some(1), "k"),
        artifact_id: "id2".to_string(),
    });
    match session.step(Event::WriteSucceeded) {
        Some(Action::RunInterpreter { deadline_secs, .. }) => assert_eq!(deadline_secs, 1),
        _ => panic!("expected a run demand"),
    }
}

#[test]
fn timed_out_run_disposes_then_reports_timeout() {
    let (paths, response) = drive(
        "k",
        request("while True: pass", "python", Some(1), "k"),
        "id3".to_string(),
        Event::DeadlineElapsed,
    );
    assert_eq!(paths, vec!["/tmp/id3.py".to_string(), "/tmp/id3.py".to_string()]);
    assert_eq!(response.output, "");
    assert_eq!(response.error, Some("Execution timed out".to_string()));
}

#[test]
fn spawn_failure_disposes_then_reports_process_error() {
    let (paths, response) = drive(
        "k",
        request("print(1)", "python", None, "k"),
        "id4".to_string(),
        Event::SpawnFailed,
    );
    assert_eq!(paths.len(), 2);
    assert_eq!(response.output, "");
    assert_eq!(response.error, Some("Failed to execute command".to_string()));
}

#[test]
fn stderr_of_a_completed_run_becomes_the_error() {
    let (_, response) = drive(
        "k",
        request("import sys; sys.stderr.write('boom')", "python", None, "k"),
        "id5".to_string(),
        Event::ProcessExited { stdout: Vec::new(), stderr: b"boom".to_vec() },
    );
    assert_eq!(response.output, "");
    assert_eq!(response.error, Some("boom".to_string()));
}

#[test]
fn invalid_credential_is_rejected_before_any_write() {
    let mut session = Session::new("secret".to_string());
    let a = session.step(Event::Arrived {
        request: request("print('hi')", "python", None, "wrong"),
        artifact_id: "id6".to_string(),
    });
    match a {
        Some(Action::Respond { response }) => {
            assert_eq!(response.output, "");
            assert_eq!(response.error, Some("Invalid authentication credentials".to_string()));
        }
        _ => panic!("expected an immediate rejection"),
    }
    // The machine has responded: it ignores everything afterwards and never
    // demands a write.
    assert!(session.step(Event::WriteSucceeded).is_none());
    assert!(session
        .step(Event::ProcessExited { stdout: b"hi\n".to_vec(), stderr: Vec::new() })
        .is_none());
    assert!(session.step(Event::Disposed).is_none());
}

#[test]
fn write_failure_reports_the_fixed_message() {
    let mut session = Session::new("k".to_string());
    session.step(Event::Arrived {
        request: request("print('hi')", "python", None, "k"),
        artifact_id: "id7".to_string(),
    });
    match session.step(Event::WriteFailed) {
        Some(Action::Respond { response }) => {
            assert_eq!(response.output, "");
            assert_eq!(response.error, Some("Failed to write temp file".to_string()));
        }
        _ => panic!("expected an immediate write-failure response"),
    }
}

#[test]
fn same_request_twice_yields_the_same_response() {
    let exited = || Event::ProcessExited { stdout: b"hi\n".to_vec(), stderr: Vec::new() };
    let (paths1, r1) = drive(
        "k",
        request("print('hi')", "python", None, "k"),
        fresh_artifact_id(),
        exited(),
    );
    let (paths2, r2) = drive(
        "k",
        request("print('hi')", "python", None, "k"),
        fresh_artifact_id(),
        exited(),
    );
    // Different artifact paths, observably equal payloads.
    assert_ne!(paths1[0], paths2[0]);
    assert_eq!(r1.output, r2.output);
    assert_eq!(r1.error, r2.error);
}
