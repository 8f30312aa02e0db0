//! The compile stage: one build service for each generated project.

use crate::config::{Config, ConfigView};
use crate::pipeline::{Action, Outcome, Pipeline};
use crate::steps::{step_views, task_views, Invocation, InvocationView, Stage, StageRun, Step,
    StepView, Task, TaskView};
use crate::text::{contains_text, copy_all, in_order, names_of, requested_names, sort, texts};
use crate::util::{join_path, joined_path, stage_reports, stage_reports_of, workspace, workspace_of};
use vstd::prelude::*;

verus! {

/// The server generators whose projects can be built.
pub open spec fn supported_server_generators() -> Seq<Seq<char>> {
    seq![
        "aspnetcore"@,
        "go-server"@,
        "kotlin-spring"@,
        "python-fastapi"@,
        "spring"@,
        "typescript-nestjs"@,
    ]
}

/// The client generators whose projects can be built.
pub open spec fn supported_client_generators() -> Seq<Seq<char>> {
    seq![
        "csharp"@,
        "go"@,
        "java"@,
        "kotlin"@,
        "python"@,
        "typescript-axios"@,
        "typescript-fetch"@,
        "typescript-node"@,
    ]
}

/// The server generators whose projects can be built.
pub fn server_generators() -> (list: Vec<String>)
    ensures
        texts(list@) == supported_server_generators(),
{
    let mut list: Vec<String> = Vec::new();
    list.push(String::from_str("aspnetcore"));
    list.push(String::from_str("go-server"));
    list.push(String::from_str("kotlin-spring"));
    list.push(String::from_str("python-fastapi"));
    list.push(String::from_str("spring"));
    list.push(String::from_str("typescript-nestjs"));
    assert(texts(list@) =~= supported_server_generators());
    list
}

/// The client generators whose projects can be built.
pub fn client_generators() -> (list: Vec<String>)
    ensures
        texts(list@) == supported_client_generators(),
{
    let mut list: Vec<String> = Vec::new();
    list.push(String::from_str("csharp"));
    list.push(String::from_str("go"));
    list.push(String::from_str("java"));
    list.push(String::from_str("kotlin"));
    list.push(String::from_str("python"));
    list.push(String::from_str("typescript-axios"));
    list.push(String::from_str("typescript-fetch"));
    list.push(String::from_str("typescript-node"));
    assert(texts(list@) =~= supported_client_generators());
    list
}

/// A generated project and the build service that compiles it.
#[derive(Debug)]
pub struct BuildTarget {
    pub scope: String,
    pub service: String,
    pub name: String,
}

/// The text of a `BuildTarget`.
pub struct BuildTargetView {
    pub scope: Seq<char>,
    pub service: Seq<char>,
    pub name: Seq<char>,
}

impl View for BuildTarget {
    type V = BuildTargetView;

    open spec fn view(&self) -> BuildTargetView {
        BuildTargetView { scope: self.scope@, service: self.service@, name: self.name@ }
    }
}

/// The views of a sequence of build targets.
pub open spec fn target_views(targets: Seq<BuildTarget>) -> Seq<BuildTargetView> {
    Seq::new(targets.len(), |i: int| targets[i]@)
}

/// Why the compile stage cannot be planned.
#[derive(Debug)]
pub enum CompileError {
    /// A requested generator has no build service.
    Unsupported { scope: String, name: String },
}

/// The text of a `CompileError`.
pub enum CompileErrorView {
    Unsupported { scope: Seq<char>, name: Seq<char> },
}

impl View for CompileError {
    type V = CompileErrorView;

    open spec fn view(&self) -> CompileErrorView {
        match self {
            CompileError::Unsupported { scope, name } => CompileErrorView::Unsupported {
                scope: scope@,
                name: name@,
            },
        }
    }
}

/// What the error says.
pub open spec fn compile_error_message(e: CompileErrorView) -> Seq<char> {
    match e {
        CompileErrorView::Unsupported { scope, name } => "Unsupported "@ + scope
            + " generator for compile: "@ + name,
    }
}

impl CompileError {
    /// What the error says.
    pub fn message(&self) -> (out: String)
        ensures
            out@ == compile_error_message(self@),
    {
        match self {
            CompileError::Unsupported { scope, name } => {
                let mut out = String::from_str("Unsupported ");
                out.append(scope.as_str());
                out.append(" generator for compile: ");
                out.append(name.as_str());
                out
            },
        }
    }
}

/// The names that are asked for: those requested, or every supported one
/// where nothing is requested.
pub open spec fn names_asked(requested: Seq<Seq<char>>, supported: Seq<Seq<char>>) -> Seq<
    Seq<char>,
> {
    if requested.len() > 0 {
        requested_names(requested)
    } else {
        supported
    }
}

/// The names to build: those asked for, in ascending order.
pub open spec fn names_to_build(requested: Seq<Seq<char>>, supported: Seq<Seq<char>>) -> Seq<
    Seq<char>,
> {
    in_order(names_asked(requested, supported))
}

/// The first of the names that is not supported.
pub open spec fn first_unsupported(names: Seq<Seq<char>>, supported: Seq<Seq<char>>) -> Option<
    Seq<char>,
>
    decreases names.len(),
{
    if names.len() == 0 {
        None
    } else {
        match first_unsupported(names.drop_last(), supported) {
            Some(name) => Some(name),
            None => if supported.contains(names.last()) {
                None
            } else {
                Some(names.last())
            },
        }
    }
}

/// The build target of a name: its service is the prefix of the scope and the
/// name.
pub open spec fn build_target(scope: Seq<char>, prefix: Seq<char>, name: Seq<char>)
    -> BuildTargetView {
    BuildTargetView { scope, service: prefix + name, name }
}

/// The build targets of the names, in their order.
pub open spec fn build_targets(scope: Seq<char>, prefix: Seq<char>, names: Seq<Seq<char>>) -> Seq<
    BuildTargetView,
> {
    Seq::new(names.len(), |i: int| build_target(scope, prefix, names[i]))
}

/// The build targets of one scope, in ascending order of their names, or the
/// error of the first name asked for that is not supported.
pub open spec fn resolution(
    scope: Seq<char>,
    requested: Seq<Seq<char>>,
    supported: Seq<Seq<char>>,
    prefix: Seq<char>,
) -> Result<Seq<BuildTargetView>, CompileErrorView> {
    match first_unsupported(names_asked(requested, supported), supported) {
        Some(name) => Err(CompileErrorView::Unsupported { scope, name }),
        None => Ok(build_targets(scope, prefix, names_to_build(requested, supported))),
    }
}

/// The first of the names that is not supported, if there is one.
fn find_unsupported(names: &Vec<String>, supported: &Vec<String>) -> (found: Option<String>)
    ensures
        match found {
            Some(name) => first_unsupported(texts(names@), texts(supported@)) == Some(name@),
            None => first_unsupported(texts(names@), texts(supported@)).is_none(),
        },
{
    let mut i: usize = 0;
    assert(texts(names@).take(0) =~= Seq::<Seq<char>>::empty());
    while i < names.len()
        invariant
            i <= names.len(),
            first_unsupported(texts(names@).take(i as int), texts(supported@)).is_none(),
        decreases names.len() - i,
    {
        assert(texts(names@).take(i + 1).drop_last() =~= texts(names@).take(i as int));
        if !contains_text(supported, names[i].as_str()) {
            proof {
                lemma_first_unsupported_stays(texts(names@), texts(supported@), i + 1);
            }
            return Some(names[i].clone());
        }
        i += 1;
    }
    assert(texts(names@).take(i as int) =~= texts(names@));
    None
}

/// Resolves the build targets of one scope. Requested names are taken without
/// the white space at their ends, blank ones left out; where nothing is
/// requested, every supported generator is built. The targets come in
/// ascending order of their names. One name outside the supported ones
/// rejects the whole request; the error names the first such name of the
/// request.
pub fn resolve_tasks(
    scope: &str,
    requested: &Vec<String>,
    supported: &Vec<String>,
    prefix: &str,
) -> (result: Result<Vec<BuildTarget>, CompileError>)
    ensures
        match result {
            Ok(targets) => resolution(scope@, texts(requested@), texts(supported@), prefix@)
                == Ok::<Seq<BuildTargetView>, CompileErrorView>(target_views(targets@)),
            Err(e) => resolution(scope@, texts(requested@), texts(supported@), prefix@) == Err::<
                Seq<BuildTargetView>,
                CompileErrorView,
            >(e@),
        },
{
    let asked = if requested.len() > 0 {
        names_of(requested)
    } else {
        copy_all(supported)
    };
    match find_unsupported(&asked, supported) {
        Some(name) => {
            return Err(CompileError::Unsupported { scope: String::from_str(scope), name });
        },
        None => {},
    }
    let names = sort(asked);
    let mut targets: Vec<BuildTarget> = Vec::new();
    let mut i: usize = 0;
    assert(target_views(targets@) =~= build_targets(scope@, prefix@, texts(names@).take(0)));
    while i < names.len()
        invariant
            i <= names.len(),
            target_views(targets@) == build_targets(scope@, prefix@, texts(names@).take(i as int)),
        decreases names.len() - i,
    {
        let mut service = String::from_str(prefix);
        service.append(names[i].as_str());
        let target = BuildTarget {
            scope: String::from_str(scope),
            service,
            name: names[i].clone(),
        };
        let ghost before = target_views(targets@);
        let ghost pushed = target@;
        targets.push(target);
        i += 1;
        assert(pushed == build_target(scope@, prefix@, texts(names@)[i - 1]));
        assert(target_views(targets@) =~= before.push(pushed));
        assert(target_views(targets@) =~= build_targets(
            scope@,
            prefix@,
            texts(names@).take(i as int),
        ));
    }
    assert(texts(names@).take(i as int) =~= texts(names@));
    Ok(targets)
}

/// Once a name of a prefix is found unsupported, it is the first for every
/// longer list.
proof fn lemma_first_unsupported_stays(names: Seq<Seq<char>>, supported: Seq<Seq<char>>, n: int)
    requires
        0 <= n <= names.len(),
        first_unsupported(names.take(n), supported).is_some(),
    ensures
        first_unsupported(names, supported) == first_unsupported(names.take(n), supported),
    decreases names.len() - n,
{
    if n < names.len() {
        assert(names.take(n + 1).drop_last() =~= names.take(n));
        lemma_first_unsupported_stays(names, supported, n + 1);
    } else {
        assert(names.take(n) =~= names);
    }
}

/// The task that builds one target: the build service run through the
/// workspace's compose file, its log under the reports of the scope.
pub open spec fn compile_task(root: Seq<char>, target: BuildTargetView) -> TaskView {
    let project = workspace_of(root);
    let compose = joined_path(project, "docker-compose.yaml"@);
    TaskView {
        stage: Stage::Compile,
        scope: target.scope,
        target: target.name,
        command: InvocationView {
            program: "docker"@,
            args: seq![
                "compose"@,
                "-f"@,
                compose,
                "--project-directory"@,
                project,
                "run"@,
                "--rm"@,
                target.service,
            ],
        },
        command_line: "$ docker compose -f "@ + compose + " --project-directory "@ + project
            + " run --rm "@ + target.service,
        log_path: joined_path(
            joined_path(stage_reports_of(root, "compile"@), target.scope),
            target.service + ".log"@,
        ),
    }
}

/// The tasks of the targets, in their order.
pub open spec fn compile_tasks(root: Seq<char>, targets: Seq<BuildTargetView>) -> Seq<TaskView> {
    Seq::new(targets.len(), |i: int| compile_task(root, targets[i]))
}

/// The build targets of the server scope, where the mode covers it.
pub open spec fn server_resolution(config: ConfigView) -> Result<
    Seq<BuildTargetView>,
    CompileErrorView,
> {
    if config.mode.covers_server() {
        resolution("server"@, config.server_generators, supported_server_generators(), "build-"@)
    } else {
        Ok(Seq::empty())
    }
}

/// The build targets of the client scope, where the mode covers it.
pub open spec fn client_resolution(config: ConfigView) -> Result<
    Seq<BuildTargetView>,
    CompileErrorView,
> {
    if config.mode.covers_client() {
        resolution(
            "client"@,
            config.client_generators,
            supported_client_generators(),
            "build-client-"@,
        )
    } else {
        Ok(Seq::empty())
    }
}

/// The tasks of the compile stage: those of the server scope, then those of
/// the client scope. The first unsupported name rejects the stage, and then
/// there is no task at all.
pub open spec fn compile_plan(root: Seq<char>, config: ConfigView) -> Result<
    Seq<TaskView>,
    CompileErrorView,
> {
    match server_resolution(config) {
        Err(e) => Err(e),
        Ok(server) => match client_resolution(config) {
            Err(e) => Err(e),
            Ok(client) => Ok(compile_tasks(root, server + client)),
        },
    }
}

/// The task that builds one target.
fn task_of(root: &str, target: &BuildTarget) -> (task: Task)
    ensures
        task@ == compile_task(root@, target@),
{
    let project = workspace(root);
    let compose = join_path(project.as_str(), "docker-compose.yaml");
    let mut args: Vec<String> = Vec::new();
    args.push(String::from_str("compose"));
    args.push(String::from_str("-f"));
    args.push(compose.clone());
    args.push(String::from_str("--project-directory"));
    args.push(project.clone());
    args.push(String::from_str("run"));
    args.push(String::from_str("--rm"));
    args.push(target.service.clone());
    let mut command_line = String::from_str("$ docker compose -f ");
    command_line.append(compose.as_str());
    command_line.append(" --project-directory ");
    command_line.append(project.as_str());
    command_line.append(" run --rm ");
    command_line.append(target.service.as_str());
    let report_dir = join_path(stage_reports(root, "compile").as_str(), target.scope.as_str());
    let mut log_name = target.service.clone();
    log_name.append(".log");
    let task = Task {
        stage: Stage::Compile,
        scope: target.scope.clone(),
        target: target.name.clone(),
        command: Invocation { program: String::from_str("docker"), args },
        command_line,
        log_path: join_path(report_dir.as_str(), log_name.as_str()),
    };
    assert(task@.command.args =~= compile_task(root@, target@).command.args);
    task
}

/// Plans the compile stage: the tasks of every scope that the mode covers, or
/// the error that rejects the stage before anything runs.
pub fn run(root: &str, config: &Config) -> (result: Result<Vec<Task>, CompileError>)
    ensures
        match result {
            Ok(tasks) => compile_plan(root@, config@) == Ok::<Seq<TaskView>, CompileErrorView>(
                task_views(tasks@),
            ),
            Err(e) => compile_plan(root@, config@) == Err::<Seq<TaskView>, CompileErrorView>(e@),
        },
{
    let mut targets: Vec<BuildTarget> = Vec::new();
    assert(target_views(targets@) =~= Seq::<BuildTargetView>::empty());
    if config.mode.includes_server() {
        match resolve_tasks("server", &config.server_generators, &server_generators(), "build-") {
            Ok(server) => {
                targets = server;
            },
            Err(e) => {
                return Err(e);
            },
        }
    }
    let ghost server = target_views(targets@);
    assert(server_resolution(config@) == Ok::<Seq<BuildTargetView>, CompileErrorView>(server));
    if config.mode.includes_client() {
        match resolve_tasks(
            "client",
            &config.client_generators,
            &client_generators(),
            "build-client-",
        ) {
            Ok(client) => {
                let mut client = client;
                let ghost client_view = target_views(client@);
                targets.append(&mut client);
                assert(target_views(targets@) =~= server + client_view);
            },
            Err(e) => {
                return Err(e);
            },
        }
    } else {
        assert(target_views(targets@) =~= server + Seq::<BuildTargetView>::empty());
    }
    let mut tasks: Vec<Task> = Vec::new();
    let mut i: usize = 0;
    while i < targets.len()
        invariant
            i <= targets.len(),
            task_views(tasks@) == compile_tasks(root@, target_views(targets@).take(i as int)),
        decreases targets.len() - i,
    {
        let task = task_of(root, &targets[i]);
        let ghost before = task_views(tasks@);
        let ghost pushed = task@;
        tasks.push(task);
        i += 1;
        assert(task_views(tasks@) =~= before.push(pushed));
        assert(task_views(tasks@) =~= compile_tasks(
            root@,
            target_views(targets@).take(i as int),
        ));
    }
    assert(target_views(targets@).take(i as int) =~= target_views(targets@));
    Ok(tasks)
}

/// The steps of the tasks, in their order.
pub open spec fn task_steps(tasks: Seq<TaskView>) -> Seq<StepView> {
    Seq::new(tasks.len(), |i: int| StepView::Run(tasks[i]))
}

/// Begins the compile stage from its plan. A plan that stands gives the run
/// that takes its tasks one by one. A plan that was rejected gives a run that
/// has failed: nothing of it runs, and the pipeline goes on to the report.
pub fn begin(plan: Result<Vec<Task>, CompileError>) -> (run: StageRun)
    ensures
        run.wf(),
        run.entries().len() == 0,
        match plan {
            Ok(tasks) => run.steps() == task_steps(task_views(tasks@)) && run.rejection().is_none(),
            Err(e) => run.steps().len() == 0 && run.rejection() == Some(
                compile_error_message(e@),
            ),
        },
{
    match plan {
        Err(e) => StageRun::rejected(e.message()),
        Ok(tasks) => {
            let ghost views = task_views(tasks@);
            let mut rest = tasks;
            let mut steps: Vec<Step> = Vec::new();
            assert(step_views(steps@) + task_steps(task_views(rest@)) =~= task_steps(views));
            while rest.len() > 0
                invariant
                    step_views(steps@) + task_steps(task_views(rest@)) == task_steps(views),
                decreases rest.len(),
            {
                let ghost before = step_views(steps@);
                let ghost left = task_views(rest@);
                let task = rest.remove(0);
                assert(task_views(rest@) =~= left.drop_first());
                let ghost pushed = task@;
                steps.push(Step::Run(task));
                assert(step_views(steps@) =~= before.push(StepView::Run(pushed)));
                assert(step_views(steps@) + task_steps(task_views(rest@)) =~= before + task_steps(
                    left,
                ));
            }
            assert(step_views(steps@) =~= task_steps(views));
            StageRun::new(steps)
        },
    }
}

/// A compile stage that cannot be planned is contained in its stage: the run
/// that begins from the rejected plan takes no step and records nothing, the
/// pipeline is told of a stage that failed, counts it, and asks for the
/// report next.
pub proof fn lemma_rejected_plan_is_contained(p: Pipeline, run: StageRun)
    requires
        p.pending() == Action::Run(Stage::Compile),
        run.wf(),
        run.rejection().is_some(),
    ensures
        run.steps().len() == 0,
        run.entries().len() == 0,
        run.stage_outcome() == Outcome::Failed,
        p.after(run.stage_outcome()).compile_failed,
        !p.after(run.stage_outcome()).aborted,
        p.after(run.stage_outcome()).pending() == Action::Run(Stage::Report),
{
}

} // verus!
