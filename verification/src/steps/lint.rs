//! The lint stage: the linter, once, on the validated document.

use crate::docker::{container_path, in_container};
use crate::steps::{Invocation, InvocationView, Stage, Task, TaskView};
use crate::util::{join_path, joined_path, stage_reports, stage_reports_of, OAV_DIR};
use vstd::prelude::*;

verus! {

/// The one task of the lint stage: the linter container on the document, with
/// the repository mounted at `/work`.
pub open spec fn lint_task(root: Seq<char>, spec_path: Seq<char>, image: Seq<char>) -> TaskView {
    let spec = in_container(spec_path);
    TaskView {
        stage: Stage::Lint,
        scope: "spec"@,
        target: "redocly"@,
        command: InvocationView {
            program: "docker"@,
            args: seq![
                "run"@,
                "--rm"@,
                "-v"@,
                root + ":/work"@,
                "-w"@,
                "/work/"@ + OAV_DIR@,
                image,
                "lint"@,
                spec,
            ],
        },
        command_line: "$ docker run --rm -v "@ + root + ":/work -w "@ + ("/work/"@ + OAV_DIR@)
            + " "@ + image + " lint "@ + spec,
        log_path: joined_path(stage_reports_of(root, "lint"@), "redocly.log"@),
    }
}

/// Plans the lint stage.
pub fn run(root: &str, spec_path: &str, redocly_image: &str) -> (task: Task)
    ensures
        task@ == lint_task(root@, spec_path@, redocly_image@),
{
    let spec = container_path(spec_path);
    let mut mount = String::from_str(root);
    mount.append(":/work");
    let mut workdir = String::from_str("/work/");
    workdir.append(OAV_DIR);

    let mut command_line = String::from_str("$ docker run --rm -v ");
    command_line.append(root);
    command_line.append(":/work -w ");
    command_line.append(workdir.as_str());
    command_line.append(" ");
    command_line.append(redocly_image);
    command_line.append(" lint ");
    command_line.append(spec.as_str());

    let mut args: Vec<String> = Vec::new();
    args.push(String::from_str("run"));
    args.push(String::from_str("--rm"));
    args.push(String::from_str("-v"));
    args.push(mount);
    args.push(String::from_str("-w"));
    args.push(workdir);
    args.push(String::from_str(redocly_image));
    args.push(String::from_str("lint"));
    args.push(spec);

    let task = Task {
        stage: Stage::Lint,
        scope: String::from_str("spec"),
        target: String::from_str("redocly"),
        command: Invocation { program: String::from_str("docker"), args },
        command_line,
        log_path: join_path(stage_reports(root, "lint").as_str(), "redocly.log"),
    };
    assert(task@.command.args =~= lint_task(root@, spec_path@, redocly_image@).command.args);
    task
}

} // verus!
