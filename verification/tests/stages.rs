use openapi_validator::cli::Mode;
use openapi_validator::config::Config;
use openapi_validator::docker::User;
use openapi_validator::pipeline::Outcome;
use openapi_validator::steps::compile::{
    begin as begin_compile, client_generators, resolve_tasks, run as plan_compile,
    server_generators, CompileError,
};
use openapi_validator::steps::generate::{
    resolve_configs, run as plan_generate, run_for_scope, ConfigError, DirListing,
};
use openapi_validator::steps::lint::run as plan_lint;
use openapi_validator::steps::report::StatusEntry;
use openapi_validator::steps::{Stage, StageRun, Step, Task};

fn strings(items: &[&str]) -> Vec<String> {
    items.iter().map(|s| s.to_string()).collect()
}

fn files(items: &[&str]) -> DirListing {
    DirListing::Files(strings(items))
}

fn task_of(step: &Step) -> &Task {
    match step {
        Step::Run(task) => task,
        Step::Reject(_) => panic!("a task was expected"),
    }
}

fn drive(steps: Vec<Step>, outcomes: &[bool]) -> (Vec<StatusEntry>, bool) {
    let mut run = StageRun::new(steps);
    let mut ledger = Vec::new();
    let mut i = 0;
    while run.next().is_some() {
        let entry = run.record(outcomes[i]).unwrap();
        ledger.push(entry);
        i += 1;
    }
    assert!(run.is_finished());
    assert_eq!(run.recorded().len(), ledger.len());
    (ledger, run.succeeded())
}

#[test]
fn stage_names() {
    assert_eq!(Stage::Lint.name(), "lint");
    assert_eq!(Stage::Generate.name(), "generate");
    assert_eq!(Stage::Compile.name(), "compile");
    assert_eq!(Stage::Report.name(), "report");
    assert_eq!(Stage::Compile.title(), "Compile");
}

#[test]
fn lint_has_one_task() {
    let task = plan_lint("/repo", "api/openapi.yaml", "redocly/cli:1.25.5");
    assert_eq!(task.stage, Stage::Lint);
    assert_eq!(task.scope, "spec");
    assert_eq!(task.target, "redocly");
    assert_eq!(task.log_path, "/repo/.oav/reports/lint/redocly.log");
    assert_eq!(
        task.command_line,
        "$ docker run --rm -v /repo:/work -w /work/.oav redocly/cli:1.25.5 lint /work/api/openapi.yaml"
    );
    assert_eq!(task.command.program, "docker");
    assert_eq!(
        task.command.args,
        strings(&[
            "run",
            "--rm",
            "-v",
            "/repo:/work",
            "-w",
            "/work/.oav",
            "redocly/cli:1.25.5",
            "lint",
            "/work/api/openapi.yaml"
        ])
    );
    assert_eq!(task.log_header(), format!("{}\n\n", task.command_line));
}

#[test]
fn lint_spec_path_is_given_with_slashes() {
    let task = plan_lint("/repo", "api\\v1\\openapi.yaml", "img");
    assert_eq!(task.command.args[8], "/work/api/v1/openapi.yaml");
}

#[test]
fn failed_lint_is_recorded_as_fail() {
    let task = plan_lint("/repo", "invalid.yml", "img");
    let (ledger, success) = drive(vec![Step::Run(task)], &[false]);
    assert!(!success);
    assert_eq!(ledger.len(), 1);
    assert_eq!(ledger[0].line(), "lint\tspec\tredocly\tfail\t/repo/.oav/reports/lint/redocly.log\n");
}

#[test]
fn passed_lint_is_recorded_as_ok() {
    let task = plan_lint("/repo", "valid.yml", "img");
    let (ledger, success) = drive(vec![Step::Run(task)], &[true]);
    assert!(success);
    assert!(ledger[0].line().starts_with("lint\tspec\tredocly\tok\t"));
}

#[test]
fn supported_generators() {
    assert_eq!(
        server_generators(),
        strings(&[
            "aspnetcore",
            "go-server",
            "kotlin-spring",
            "python-fastapi",
            "spring",
            "typescript-nestjs"
        ])
    );
    assert_eq!(
        client_generators(),
        strings(&[
            "csharp",
            "go",
            "java",
            "kotlin",
            "python",
            "typescript-axios",
            "typescript-fetch",
            "typescript-node"
        ])
    );
}

#[test]
fn compile_resolves_every_supported_generator_by_default() {
    let targets = resolve_tasks("server", &Vec::new(), &server_generators(), "build-").unwrap();
    assert_eq!(targets.len(), 6);
    assert_eq!(targets[0].name, "aspnetcore");
    assert_eq!(targets[0].service, "build-aspnetcore");
    assert_eq!(targets[0].scope, "server");
    assert_eq!(targets[5].service, "build-typescript-nestjs");
}

#[test]
fn compile_resolves_requested_names_in_ascending_order() {
    let targets =
        resolve_tasks("client", &strings(&[" java ", "", "go"]), &client_generators(), "build-client-")
            .unwrap();
    assert_eq!(targets.len(), 2);
    assert_eq!(targets[0].name, "go");
    assert_eq!(targets[0].service, "build-client-go");
    assert_eq!(targets[1].name, "java");
    assert_eq!(targets[1].service, "build-client-java");
}

#[test]
fn compile_sorts_the_request() {
    let targets =
        resolve_tasks("server", &strings(&["spring", "aspnetcore"]), &server_generators(), "build-")
            .unwrap();
    assert_eq!(targets.len(), 2);
    assert_eq!(targets[0].name, "aspnetcore");
    assert_eq!(targets[0].service, "build-aspnetcore");
    assert_eq!(targets[1].name, "spring");
    assert_eq!(targets[1].service, "build-spring");
    let targets = resolve_tasks(
        "server",
        &strings(&["spring", "go-server", "spring"]),
        &server_generators(),
        "build-",
    )
    .unwrap();
    let names: Vec<&str> = targets.iter().map(|t| t.name.as_str()).collect();
    assert_eq!(names, vec!["go-server", "spring", "spring"]);
}

#[test]
fn compile_error_names_the_first_unsupported_of_the_request() {
    let result =
        resolve_tasks("server", &strings(&["zig", "spring", "ada"]), &server_generators(), "build-");
    assert!(matches!(result, Err(CompileError::Unsupported { name, .. }) if name == "zig"));
}

#[test]
fn rejected_compile_plan_is_a_failed_stage() {
    let mut config = Config::default();
    config.server_generators = strings(&["spring", "rust"]);
    let mut run = begin_compile(plan_compile("/repo", &config));
    assert!(run.is_finished());
    assert!(run.next().is_none());
    assert!(run.record(true).is_none());
    assert_eq!(run.recorded().len(), 0);
    assert!(!run.succeeded());
    assert_eq!(run.outcome(), Outcome::Failed);
    assert_eq!(run.reason(), Some("Unsupported server generator for compile: rust".to_string()));
}

#[test]
fn compile_plan_that_stands_takes_its_tasks() {
    let mut config = Config::default();
    config.server_generators = strings(&["spring", "aspnetcore"]);
    let mut run = begin_compile(plan_compile("/repo", &config));
    assert_eq!(run.reason(), None);
    let mut targets = Vec::new();
    while let Some(step) = run.next() {
        targets.push(task_of(step).target.clone());
        run.record(true);
    }
    assert_eq!(targets, strings(&["aspnetcore", "spring"]));
    assert!(run.succeeded());
    assert_eq!(run.outcome(), Outcome::Passed);
    assert_eq!(run.recorded().len(), 2);
}

#[test]
fn spinner_for_lint_and_report() {
    assert!(Stage::Lint.shows_spinner());
    assert!(!Stage::Generate.shows_spinner());
    assert!(!Stage::Compile.shows_spinner());
    assert!(Stage::Report.shows_spinner());
}

#[test]
fn compile_with_blank_requests_only_has_no_task() {
    let targets = resolve_tasks("server", &strings(&["  "]), &server_generators(), "build-").unwrap();
    assert_eq!(targets.len(), 0);
}

#[test]
fn compile_rejects_an_unsupported_name() {
    let result = resolve_tasks("server", &strings(&["spring", "rust", "cobol"]), &server_generators(), "build-");
    match result {
        Err(CompileError::Unsupported { scope, name }) => {
            assert_eq!(scope, "server");
            assert_eq!(name, "rust");
        }
        Ok(_) => panic!("the request holds an unsupported name"),
    }
}

#[test]
fn compile_error_message() {
    let e = CompileError::Unsupported { scope: "client".to_string(), name: "swift".to_string() };
    assert_eq!(e.message(), "Unsupported client generator for compile: swift");
}

#[test]
fn compile_plans_the_scopes_of_the_mode() {
    let mut config = Config::default();
    config.server_generators = strings(&["spring"]);
    config.client_generators = strings(&["go", "java"]);
    config.mode = Mode::Both;
    let tasks = plan_compile("/repo", &config).unwrap();
    assert_eq!(tasks.len(), 3);
    assert_eq!(tasks[0].stage, Stage::Compile);
    assert_eq!(tasks[0].scope, "server");
    assert_eq!(tasks[0].target, "spring");
    assert_eq!(tasks[0].log_path, "/repo/.oav/reports/compile/server/build-spring.log");
    assert_eq!(
        tasks[0].command_line,
        "$ docker compose -f /repo/.oav/docker-compose.yaml --project-directory /repo/.oav run --rm build-spring"
    );
    assert_eq!(tasks[0].command.program, "docker");
    assert_eq!(
        tasks[0].command.args,
        strings(&[
            "compose",
            "-f",
            "/repo/.oav/docker-compose.yaml",
            "--project-directory",
            "/repo/.oav",
            "run",
            "--rm",
            "build-spring"
        ])
    );
    assert_eq!(tasks[1].scope, "client");
    assert_eq!(tasks[1].log_path, "/repo/.oav/reports/compile/client/build-client-go.log");
    assert_eq!(tasks[2].target, "java");
    assert_eq!(tasks[0].label(), "Compile server spring");

    config.mode = Mode::Client;
    assert_eq!(plan_compile("/repo", &config).unwrap().len(), 2);
    config.mode = Mode::Server;
    assert_eq!(plan_compile("/repo", &config).unwrap().len(), 1);
}

#[test]
fn compile_error_of_one_scope_rejects_the_stage() {
    let mut config = Config::default();
    config.mode = Mode::Both;
    config.server_generators = strings(&["spring"]);
    config.client_generators = strings(&["spring"]);
    match plan_compile("/repo", &config) {
        Err(CompileError::Unsupported { scope, name }) => {
            assert_eq!(scope, "client");
            assert_eq!(name, "spring");
        }
        Ok(_) => panic!("spring is no client generator"),
    }
    config.mode = Mode::Server;
    assert!(plan_compile("/repo", &config).is_ok());
}

#[test]
fn configs_of_a_missing_directory() {
    match resolve_configs("/repo/.oav/generators/server", &DirListing::Missing, &Vec::new()) {
        Err(e) => {
            assert!(matches!(e, ConfigError::MissingDirectory { .. }));
            assert_eq!(e.message(), "Missing config directory: /repo/.oav/generators/server");
        }
        Ok(_) => panic!("the directory is missing"),
    }
}

#[test]
fn configs_of_an_unreadable_directory() {
    let listing = DirListing::Unreadable("Failed to read generator directory".to_string());
    match resolve_configs("/d", &listing, &strings(&["spring"])) {
        Err(e) => assert_eq!(e.message(), "Failed to read generator directory"),
        Ok(_) => panic!("the directory cannot be read"),
    }
}

#[test]
fn configs_are_all_yaml_files_in_order() {
    let listing = files(&["spring.yaml", "README.md", "go-server.yaml", "notes.yml", ".yaml", "a.YAML"]);
    let paths = resolve_configs("/d", &listing, &Vec::new()).unwrap();
    assert_eq!(paths, strings(&["/d/go-server.yaml", "/d/spring.yaml"]));
}

#[test]
fn configs_of_requested_names() {
    let listing = files(&["spring.yaml", "go-server.yaml", "aspnetcore.yaml"]);
    let paths = resolve_configs("/d", &listing, &strings(&[" spring", "aspnetcore", " "])).unwrap();
    assert_eq!(paths, strings(&["/d/aspnetcore.yaml", "/d/spring.yaml"]));
}

#[test]
fn configs_with_a_missing_request() {
    let listing = files(&["spring.yaml"]);
    match resolve_configs("/d", &listing, &strings(&["spring", "kotlin", "scala"])) {
        Err(e) => {
            assert!(matches!(e, ConfigError::MissingConfig { .. }));
            assert_eq!(e.message(), "Missing generator config: /d/kotlin.yaml");
        }
        Ok(_) => panic!("kotlin has no configuration"),
    }
}

#[test]
fn configs_of_an_empty_directory() {
    match resolve_configs("/d", &files(&["README.md"]), &Vec::new()) {
        Err(e) => {
            assert!(matches!(e, ConfigError::NoConfigs { .. }));
            assert_eq!(e.message(), "No generator configs found under /d");
        }
        Ok(_) => panic!("there is no configuration"),
    }
    assert!(matches!(
        resolve_configs("/d", &files(&["spring.yaml"]), &strings(&[" ", ""])),
        Err(ConfigError::NoConfigs { .. })
    ));
}

#[test]
fn generate_task_of_a_configuration() {
    let steps = run_for_scope(
        "/repo",
        "api/openapi.yaml",
        "img:1",
        "server",
        &files(&["spring.yaml"]),
        &Vec::new(),
        Some(User { uid: 1000, gid: 100 }),
    );
    assert_eq!(steps.len(), 1);
    let task = task_of(&steps[0]);
    assert_eq!(task.stage, Stage::Generate);
    assert_eq!(task.scope, "server");
    assert_eq!(task.target, "spring");
    assert_eq!(task.log_path, "/repo/.oav/reports/generate/server/spring.log");
    assert_eq!(
        task.command_line,
        "$ docker run --rm --user 1000:100 -v /repo:/work -w /work/.oav img:1 generate -i /work/api/openapi.yaml -c /work/.oav/generators/server/spring.yaml"
    );
    assert_eq!(task.command.program, "docker");
    assert_eq!(
        task.command.args,
        strings(&[
            "run",
            "--rm",
            "--user",
            "1000:100",
            "-v",
            "/repo:/work",
            "-w",
            "/work/.oav",
            "img:1",
            "generate",
            "-i",
            "/work/api/openapi.yaml",
            "-c",
            "/work/.oav/generators/server/spring.yaml"
        ])
    );
    assert_eq!(task.label(), "Generate server spring");
}

#[test]
fn generate_task_without_user() {
    let steps =
        run_for_scope("/repo", "openapi.yaml", "img", "client", &files(&["go.yaml"]), &Vec::new(), None);
    let task = task_of(&steps[0]);
    assert_eq!(
        task.command_line,
        "$ docker run --rm -v /repo:/work -w /work/.oav img generate -i /work/openapi.yaml -c /work/.oav/generators/client/go.yaml"
    );
    assert_eq!(task.command.args.len(), 12);
    assert_eq!(task.command.args[2], "-v");
}

#[test]
fn unresolvable_target_gives_one_synthetic_failure() {
    let steps = run_for_scope(
        "/repo",
        "openapi.yaml",
        "img",
        "server",
        &files(&["spring.yaml", "go-server.yaml"]),
        &strings(&["spring", "nope", "go-server"]),
        None,
    );
    assert_eq!(steps.len(), 1);
    match &steps[0] {
        Step::Reject(rejection) => {
            assert_eq!(rejection.scope, "server");
            assert_eq!(
                rejection.message,
                "Missing generator config: /repo/.oav/generators/server/nope.yaml"
            );
            assert_eq!(rejection.log_path, "/repo/.oav/reports/generate/server/_errors.log");
            assert_eq!(
                rejection.log_line(),
                "Missing generator config: /repo/.oav/generators/server/nope.yaml\n"
            );
        }
        Step::Run(_) => panic!("no generator may run"),
    }
    let (ledger, success) = drive(steps, &[true]);
    assert!(!success);
    assert_eq!(ledger.len(), 1);
    assert_eq!(
        ledger[0].line(),
        "generate\tserver\t_config_\tfail\t/repo/.oav/reports/generate/server/_errors.log\n"
    );
}

#[test]
fn three_targets_of_which_the_second_fails() {
    let steps = run_for_scope(
        "/repo",
        "openapi.yaml",
        "img",
        "server",
        &files(&["c.yaml", "a.yaml", "b.yaml"]),
        &Vec::new(),
        None,
    );
    assert_eq!(steps.len(), 3);
    let (ledger, success) = drive(steps, &[true, false, true]);
    assert!(!success);
    assert_eq!(ledger.len(), 3);
    let targets: Vec<&str> = ledger.iter().map(|e| e.target.as_str()).collect();
    let statuses: Vec<&str> = ledger.iter().map(|e| e.status.as_str()).collect();
    assert_eq!(targets, vec!["a", "b", "c"]);
    assert_eq!(statuses, vec!["ok", "fail", "ok"]);
    for entry in &ledger {
        assert_eq!(entry.stage, "generate");
        assert_eq!(entry.scope, "server");
    }
}

#[test]
fn every_task_has_its_entry() {
    let mut config = Config::default();
    config.mode = Mode::Both;
    let tasks = plan_compile("/repo", &config).unwrap();
    let count = tasks.len();
    assert_eq!(count, 14);
    let steps: Vec<Step> = tasks.into_iter().map(Step::Run).collect();
    let outcomes = vec![true; count];
    let (ledger, success) = drive(steps, &outcomes);
    assert!(success);
    assert_eq!(ledger.len(), count);
}

#[test]
fn finished_run_takes_no_more() {
    let task = plan_lint("/repo", "openapi.yaml", "img");
    let mut run = StageRun::new(vec![Step::Run(task)]);
    assert!(!run.is_finished());
    assert!(run.record(true).is_some());
    assert!(run.is_finished());
    assert!(run.next().is_none());
    assert!(run.record(false).is_none());
    assert_eq!(run.recorded().len(), 1);
    assert!(run.succeeded());
}

#[test]
fn empty_stage_succeeds() {
    let run = StageRun::new(Vec::new());
    assert!(run.is_finished());
    assert!(run.succeeded());
    assert_eq!(run.recorded().len(), 0);
}

#[test]
fn generate_plans_both_scopes() {
    let mut config = Config::default();
    config.mode = Mode::Both;
    config.generator_image = "img".to_string();
    config.client_generators = strings(&["missing"]);
    let steps = plan_generate(
        "/repo",
        "openapi.yaml",
        &config,
        &files(&["spring.yaml", "go-server.yaml"]),
        &files(&["go.yaml"]),
        None,
    );
    assert_eq!(steps.len(), 3);
    assert_eq!(task_of(&steps[0]).target, "go-server");
    assert_eq!(task_of(&steps[1]).target, "spring");
    assert!(matches!(&steps[2], Step::Reject(r) if r.scope == "client"));
    let (ledger, success) = drive(steps, &[true, true, true]);
    assert!(!success);
    assert_eq!(ledger.len(), 3);
    assert_eq!(ledger[2].target, "_config_");
    assert_eq!(ledger[2].status, "fail");

    config.mode = Mode::Server;
    let steps = plan_generate("/repo", "openapi.yaml", &config, &files(&["spring.yaml"]), &DirListing::Missing, None);
    assert_eq!(steps.len(), 1);
}
