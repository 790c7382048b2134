use code_runner::outcome::{clock_outcome, ExecutionResult};
use code_runner::plan::{plan_run, RunError};
use code_runner::request::{parse_language, FileSpec, Language, Payload, RunRequest};

fn request(language: &str, files: Vec<FileSpec>, entropy: Option<&str>, datetime: Option<&str>) -> RunRequest {
    RunRequest {
        payload: Payload { language: language.to_string(), files },
        entropy: entropy.map(|s| s.to_string()),
        datetime: datetime.map(|s| s.to_string()),
    }
}

#[test]
fn languages() {
    assert_eq!(parse_language(&"python".to_string()), Some(Language::Python));
    assert_eq!(parse_language(&"node".to_string()), Some(Language::Node));
    assert_eq!(parse_language(&"ruby".to_string()), None);
    assert_eq!(parse_language(&"Python".to_string()), None);
}

#[test]
fn python_request_is_planned() {
    let req = request("python", vec![FileSpec::new("main.py", "print('hi')")], None, None);
    let plan = plan_run(&req).unwrap();
    assert_eq!(plan.language, Language::Python);
    assert_eq!(plan.entrypoint, "main.py");
    assert!(plan.entropy.is_none());
    assert!(plan.clock.is_none());
}

#[test]
fn python_output_envelope() {
    let r = ExecutionResult::from_output(b"hi\n", b"", Some(0));
    assert_eq!(r.stdout, "hi\n");
    assert_eq!(r.stderr, "");
    assert_eq!(r.exit_code, Some(0));
}

#[test]
fn invalid_utf8_output_is_replaced() {
    let r = ExecutionResult::from_output(&[0x66, 0xff], &[0xc3], None);
    assert_eq!(r.stdout, "f\u{FFFD}");
    assert_eq!(r.stderr, "\u{FFFD}");
    assert_eq!(r.exit_code, None);
}

#[test]
fn full_plan_carries_entropy_and_clock() {
    let req = request(
        "node",
        vec![FileSpec::new("index.js", "console.log(1)")],
        Some("a1B2"),
        Some("2020-02-29T12:00:00Z"),
    );
    let plan = plan_run(&req).unwrap();
    assert_eq!(plan.language, Language::Node);
    let e = plan.entropy.unwrap();
    assert_eq!(e.buf, vec![0xa1, 0xb2]);
    assert_eq!(e.entropy_count, 16);
    assert_eq!(plan.clock.unwrap(), "2020-02-29 12:00:00.000");
}

#[test]
fn no_files_is_a_client_error() {
    let req = request("python", vec![], None, None);
    let e = plan_run(&req).err().unwrap();
    assert!(matches!(e, RunError::NoFiles));
    assert_eq!(e.status_code(), 400);
    assert_eq!(e.message(), "No files provided");
}

#[test]
fn unsupported_language_is_a_client_error() {
    let req = request("ruby", vec![FileSpec::new("main.rb", "puts 1")], None, None);
    let e = plan_run(&req).err().unwrap();
    assert!(matches!(e, RunError::UnsupportedLanguage));
    assert_eq!(e.status_code(), 400);
    assert_eq!(e.message(), "Unsupported language");
}

#[test]
fn malformed_datetime_is_a_client_error() {
    let req = request("python", vec![FileSpec::new("main.py", "")], Some("00"), Some("yesterday"));
    let e = plan_run(&req).err().unwrap();
    assert!(matches!(e, RunError::InvalidDatetime));
    assert_eq!(e.status_code(), 400);
}

#[test]
fn malformed_hex_is_a_client_error() {
    let req = request("python", vec![FileSpec::new("main.py", "")], Some("abc"), None);
    let e = plan_run(&req).err().unwrap();
    assert!(matches!(e, RunError::Decode));
    assert_eq!(e.status_code(), 400);
    let req = request("python", vec![FileSpec::new("main.py", "")], Some(""), None);
    assert!(matches!(plan_run(&req).err().unwrap(), RunError::EmptyEntropy));
}

#[test]
fn hex_error_comes_before_other_faults() {
    let req = request("ruby", vec![], Some("xyz"), Some("bad"));
    assert!(matches!(plan_run(&req).err().unwrap(), RunError::Decode));
}

#[test]
fn host_failures_are_server_errors() {
    assert_eq!(RunError::Device(13).status_code(), 500);
    assert_eq!(RunError::FileWrite("a.txt".to_string()).status_code(), 500);
    assert_eq!(RunError::Upstream.status_code(), 500);
    assert_eq!(RunError::Upstream.message(), "Failed to reach node-runner");
}

#[test]
fn entrypoint_path_and_text_come_apart() {
    let p = Payload {
        language: "python".to_string(),
        files: vec![FileSpec::new("a.txt", "A"), FileSpec::new("a.txt", "B")],
    };
    assert_eq!(p.entrypoint().unwrap(), "a.txt");
    assert_eq!(p.entrypoint_content().unwrap(), "B");
}

#[test]
fn entrypoint_text_ignores_other_paths() {
    let p = Payload {
        language: "node".to_string(),
        files: vec![FileSpec::new("m.js", "1"), FileSpec::new("n.js", "2"), FileSpec::new("m.js", "3"), FileSpec::new("o.js", "4")],
    };
    assert_eq!(p.entrypoint().unwrap(), "m.js");
    assert_eq!(p.entrypoint_content().unwrap(), "3");
    let empty = Payload { language: "node".to_string(), files: vec![] };
    assert!(empty.entrypoint().is_none());
    assert!(empty.entrypoint_content().is_none());
}

#[test]
fn clock_tool_outcomes() {
    assert!(clock_outcome(true, true).is_ok());
    assert!(matches!(clock_outcome(true, false), Err(RunError::ClockRejected)));
    assert!(matches!(clock_outcome(false, false), Err(RunError::ClockLaunch)));
}

#[test]
fn control_call_outcomes() {
    assert!(code_runner::outcome::control_call_outcome(0, 0).is_ok());
    assert!(matches!(code_runner::outcome::control_call_outcome(-1, 13), Err(RunError::Device(13))));
}
