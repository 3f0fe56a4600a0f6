use runbox::artifact::{artifact_path, fresh_artifact_id, TEMP_DIR};
use runbox::auth::authenticate;
use runbox::lang::Lang;
use runbox::outcome::{build_response, ExecutionOutcome};

#[test]
fn lang_of_tag_javascript() {
    assert_eq!(Lang::of_tag("javascript"), Lang::Javascript);
}

#[test]
fn lang_of_tag_python() {
    assert_eq!(Lang::of_tag("python"), Lang::Python);
}

#[test]
fn lang_of_tag_unrecognized_falls_back_to_python() {
    assert_eq!(Lang::of_tag("ruby"), Lang::Python);
    assert_eq!(Lang::of_tag(""), Lang::Python);
    assert_eq!(Lang::of_tag("JavaScript"), Lang::Python);
}

#[test]
fn extension_matches_language() {
    assert_eq!(Lang::Python.extension(), ".py");
    assert_eq!(Lang::Javascript.extension(), ".js");
}

#[test]
fn interpreter_matches_language() {
    assert_eq!(Lang::Python.interpreter(), "python3");
    assert_eq!(Lang::Javascript.interpreter(), "node");
}

#[test]
fn authenticate_accepts_the_configured_secret() {
    assert!(authenticate("s3cret", "s3cret"));
    assert!(authenticate("", ""));
}

#[test]
fn authenticate_rejects_other_credentials() {
    assert!(!authenticate("s3cret!", "s3cret"));
    assert!(!authenticate("", "s3cret"));
    assert!(!authenticate("s3cret", ""));
}

#[test]
fn artifact_path_joins_dir_id_and_extension() {
    assert_eq!(artifact_path("/tmp", "abc", Lang::Python), "/tmp/abc.py");
    assert_eq!(artifact_path("/tmp", "abc", Lang::Javascript), "/tmp/abc.js");
    assert_eq!(TEMP_DIR, "/tmp");
}

#[test]
fn fresh_artifact_id_is_hyphenated_uuid() {
    let id = fresh_artifact_id();
    assert_eq!(id.chars().count(), 36);
    let hyphens: Vec<usize> = id
        .char_indices()
        .filter(|(_, c)| *c == '-')
        .map(|(i, _)| i)
        .collect();
    assert_eq!(hyphens, vec![8, 13, 18, 23]);
}

#[test]
fn build_response_clean_run_reports_stdout_only() {
    let outcome = ExecutionOutcome::Completed { stdout: b"hi\n".to_vec(), stderr: Vec::new() };
    let r = build_response(&outcome);
    assert_eq!(r.output, "hi\n");
    assert_eq!(r.error, None);
}

#[test]
fn build_response_nonempty_stderr_becomes_error() {
    let outcome = ExecutionOutcome::Completed { stdout: Vec::new(), stderr: b"boom".to_vec() };
    let r = build_response(&outcome);
    assert_eq!(r.output, "");
    assert_eq!(r.error, Some("boom".to_string()));
}

#[test]
fn build_response_keeps_stdout_beside_stderr() {
    let outcome =
        ExecutionOutcome::Completed { stdout: b"partial".to_vec(), stderr: b"oops".to_vec() };
    let r = build_response(&outcome);
    assert_eq!(r.output, "partial");
    assert_eq!(r.error, Some("oops".to_string()));
}

#[test]
fn build_response_process_error_has_fixed_message() {
    let r = build_response(&ExecutionOutcome::ProcessError);
    assert_eq!(r.output, "");
    assert_eq!(r.error, Some("Failed to execute command".to_string()));
}

#[test]
fn build_response_timeout_has_fixed_message() {
    let r = build_response(&ExecutionOutcome::TimedOut);
    assert_eq!(r.output, "");
    assert_eq!(r.error, Some("Execution timed out".to_string()));
}

#[test]
fn build_response_repairs_invalid_utf8() {
    let outcome =
        ExecutionOutcome::Completed { stdout: vec![0xff, b'h', b'i'], stderr: Vec::new() };
    let r = build_response(&outcome);
    assert_eq!(r.output, "\u{FFFD}hi");
    assert_eq!(r.error, None);
}
