use openapi_validator::docker::{
    availability_probe, capture_mode, container_path, ensure_available, user_args, user_flag,
    Capture, DockerError, User, CHUNK_SIZE,
};
use openapi_validator::output::{Emit, Opening, Output};

#[test]
fn console_of_the_flags() {
    let output = Output::new(false, false, true, false);
    assert!(output.color && output.progress && !output.verbose && !output.quiet);
    let output = Output::new(false, false, true, true);
    assert!(!output.color && output.progress);
    let output = Output::new(true, false, true, false);
    assert!(output.color && !output.progress && output.verbose);
    let output = Output::new(false, true, true, false);
    assert!(output.color && !output.progress && output.quiet);
    let output = Output::new(false, false, false, false);
    assert!(!output.color && !output.progress);
}

#[test]
fn marks_without_colour() {
    let output = Output::new(false, false, false, false);
    assert_eq!(output.status_icon(true), "OK");
    assert_eq!(output.status_icon(false), "FAIL");
}

#[test]
fn marks_with_colour() {
    let output = Output::new(false, false, true, false);
    assert_eq!(output.status_icon(true), "\u{1b}[32m\u{2713}\u{1b}[39m");
    assert_eq!(output.status_icon(false), "\u{1b}[31m\u{2717}\u{1b}[39m");
}

#[test]
fn error_line() {
    let plain = Output::new(false, false, false, false);
    assert_eq!(plain.print_error("no spec"), "error: no spec");
    let coloured = Output::new(false, false, true, false);
    assert_eq!(
        coloured.print_error("no spec"),
        "\u{1b}[1m\u{1b}[31merror:\u{1b}[39m\u{1b}[0m no spec"
    );
}

#[test]
fn summary_lines() {
    let plain = Output::new(false, false, false, false);
    assert_eq!(plain.print_summary(3, 1), vec![String::new(), "3 passed, 1 failed".to_string()]);
    let coloured = Output::new(false, false, true, false);
    assert_eq!(
        coloured.print_summary(12, 2),
        vec![String::new(), "\u{1b}[32m12 passed\u{1b}[39m, \u{1b}[31m2 failed\u{1b}[39m".to_string()]
    );
    assert_eq!(
        coloured.print_summary(4, 0),
        vec![String::new(), "\u{1b}[32m4 passed\u{1b}[39m, \u{1b}[2m0 failed\u{1b}[0m".to_string()]
    );
    let quiet = Output::new(false, true, true, false);
    assert!(quiet.print_summary(1, 1).is_empty());
}

#[test]
fn phase_headers() {
    let plain = Output::new(false, false, false, false);
    assert_eq!(plain.phase_header("Generate"), vec![String::new(), "Generate".to_string()]);
    let coloured = Output::new(false, false, true, false);
    assert_eq!(
        coloured.phase_header("Generate"),
        vec![String::new(), "\u{1b}[1mGenerate\u{1b}[0m".to_string()]
    );
    let quiet = Output::new(false, true, false, false);
    assert!(quiet.phase_header("Generate").is_empty());
}

#[test]
fn spinner_or_line() {
    let terminal = Output::new(false, false, true, false);
    assert!(matches!(terminal.start_spinner("Lint"), Opening::Spinner(m) if m == "Lint"));
    let verbose = Output::new(true, false, true, false);
    assert!(matches!(verbose.start_spinner("Lint"), Opening::Line(l) if l == "==> Lint"));
    let plain = Output::new(false, false, false, false);
    assert!(matches!(plain.start_spinner("Lint"), Opening::Silent));
    assert!(matches!(plain.finish_spinner("Lint", true), Emit::Line(l) if l == "OK Lint"));
    let quiet = Output::new(false, true, false, false);
    assert!(matches!(quiet.finish_spinner("Lint", true), Emit::Nothing));
}

#[test]
fn substeps() {
    let terminal = Output::new(false, false, true, true);
    assert!(matches!(terminal.substep_start("Generate server spring"), Emit::Inline(t) if t == "  Generate server spring..."));
    assert!(matches!(
        terminal.substep_finish("Generate server spring", false),
        Emit::Inline(t) if t == "\rFAIL   Generate server spring\u{1b}[K\n"
    ));
    let verbose = Output::new(true, false, false, false);
    assert!(matches!(verbose.substep_start("x"), Emit::Line(t) if t == "x..."));
    assert!(matches!(verbose.substep_finish("x", true), Emit::Line(t) if t == "OK   x"));
    let plain = Output::new(false, false, false, false);
    assert!(matches!(plain.substep_start("x"), Emit::Nothing));
    assert!(matches!(plain.substep_finish("x", true), Emit::Line(t) if t == "OK   x"));
    let quiet = Output::new(false, true, false, false);
    assert!(matches!(quiet.substep_start("x"), Emit::Nothing));
    assert!(matches!(quiet.substep_finish("x", true), Emit::Nothing));
}

#[test]
fn messages() {
    let plain = Output::new(false, false, false, false);
    assert!(matches!(plain.println("hello"), Emit::Line(t) if t == "hello"));
    let quiet = Output::new(false, true, false, false);
    assert!(matches!(quiet.println("hello"), Emit::Nothing));
    assert!(matches!(quiet.println_always("hello"), Emit::Line(t) if t == "hello"));
}

#[test]
fn container_user() {
    let user = Some(User { uid: 501, gid: 20 });
    assert_eq!(user_args(user), vec!["--user".to_string(), "501:20".to_string()]);
    assert_eq!(user_flag(user), "--user 501:20");
    assert!(user_args(None).is_empty());
    assert_eq!(user_flag(None), "");
    assert_eq!(user_flag(Some(User { uid: 0, gid: u32::MAX })), "--user 0:4294967295");
}

#[test]
fn container_paths() {
    assert_eq!(container_path("api/openapi.yaml"), "/work/api/openapi.yaml");
    assert_eq!(container_path("api\\openapi.yaml"), "/work/api/openapi.yaml");
    assert_eq!(container_path(""), "/work/");
}

#[test]
fn docker_probe() {
    let probe = availability_probe();
    assert_eq!(probe.program, "docker");
    assert_eq!(probe.args, vec!["version".to_string()]);
    assert_eq!(ensure_available(Some(true)), Ok(()));
    assert_eq!(ensure_available(Some(false)), Err(DockerError::NotResponding));
    assert_eq!(ensure_available(None), Err(DockerError::NotFound));
    assert_eq!(
        DockerError::NotResponding.message(),
        "Docker is installed but not responding. Is the daemon running?"
    );
    assert_eq!(DockerError::NotFound.message(), "Docker not found in PATH.");
}

#[test]
fn capture_follows_verbosity() {
    assert_eq!(capture_mode(&Output::new(true, false, false, false)), Capture::Mirror);
    assert_eq!(capture_mode(&Output::new(false, false, true, false)), Capture::Redirect);
    assert_eq!(capture_mode(&Output::new(false, true, true, false)), Capture::Redirect);
    assert_eq!(CHUNK_SIZE, 8192);
}
