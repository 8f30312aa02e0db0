//! The generate stage: one generator run for each configuration file of a scope.

use crate::config::{Config, ConfigView};
use crate::docker::{container_path, in_container, user_args, user_args_of, user_flag,
    user_flag_of, User};
use crate::steps::{Invocation, InvocationView, Rejection, RejectionView, Stage, Step, StepView,
    Task, TaskView};
use crate::text::{collapse_space_pairs, contains_text, equal, in_order, names_of,
    requested_names, sort, texts, with_space_pairs_collapsed};
use crate::util::{extension, extension_of, file_stem, file_stem_of, join_path, joined_path,
    stage_reports, stage_reports_of, OAV_DIR};
use vstd::prelude::*;

verus! {

/// What was found where the configuration files of a scope are kept.
#[derive(Debug)]
pub enum DirListing {
    /// There is no such directory.
    Missing,
    /// The directory could not be read; the text says why.
    Unreadable(String),
    /// The names of the regular files in the directory. What else the
    /// directory holds, directories among it, is no configuration file.
    Files(Vec<String>),
}

/// The text of a `DirListing`.
pub enum DirListingView {
    Missing,
    Unreadable(Seq<char>),
    Files(Seq<Seq<char>>),
}

impl View for DirListing {
    type V = DirListingView;

    open spec fn view(&self) -> DirListingView {
        match self {
            DirListing::Missing => DirListingView::Missing,
            DirListing::Unreadable(message) => DirListingView::Unreadable(message@),
            DirListing::Files(files) => DirListingView::Files(texts(files@)),
        }
    }
}

/// Why a scope has no generator to run.
#[derive(Debug)]
pub enum ConfigError {
    MissingDirectory { dir: String },
    Unreadable { message: String },
    MissingConfig { path: String },
    NoConfigs { dir: String },
}

/// The text of a `ConfigError`.
pub enum ConfigErrorView {
    MissingDirectory { dir: Seq<char> },
    Unreadable { message: Seq<char> },
    MissingConfig { path: Seq<char> },
    NoConfigs { dir: Seq<char> },
}

impl View for ConfigError {
    type V = ConfigErrorView;

    open spec fn view(&self) -> ConfigErrorView {
        match self {
            ConfigError::MissingDirectory { dir } => ConfigErrorView::MissingDirectory { dir: dir@ },
            ConfigError::Unreadable { message } => ConfigErrorView::Unreadable {
                message: message@,
            },
            ConfigError::MissingConfig { path } => ConfigErrorView::MissingConfig { path: path@ },
            ConfigError::NoConfigs { dir } => ConfigErrorView::NoConfigs { dir: dir@ },
        }
    }
}

/// What the error says.
pub open spec fn config_error_message(e: ConfigErrorView) -> Seq<char> {
    match e {
        ConfigErrorView::MissingDirectory { dir } => "Missing config directory: "@ + dir,
        ConfigErrorView::Unreadable { message } => message,
        ConfigErrorView::MissingConfig { path } => "Missing generator config: "@ + path,
        ConfigErrorView::NoConfigs { dir } => "No generator configs found under "@ + dir,
    }
}

impl ConfigError {
    /// What the error says.
    pub fn message(&self) -> (out: String)
        ensures
            out@ == config_error_message(self@),
    {
        match self {
            ConfigError::MissingDirectory { dir } => {
                let mut out = String::from_str("Missing config directory: ");
                out.append(dir.as_str());
                out
            },
            ConfigError::Unreadable { message } => message.clone(),
            ConfigError::MissingConfig { path } => {
                let mut out = String::from_str("Missing generator config: ");
                out.append(path.as_str());
                out
            },
            ConfigError::NoConfigs { dir } => {
                let mut out = String::from_str("No generator configs found under ");
                out.append(dir.as_str());
                out
            },
        }
    }
}

/// The file that configures the generator of a name.
pub open spec fn config_file_of(name: Seq<char>) -> Seq<char> {
    name + ".yaml"@
}

/// The files that configure the generators of the names.
pub open spec fn config_files_of(names: Seq<Seq<char>>) -> Seq<Seq<char>> {
    Seq::new(names.len(), |i: int| config_file_of(names[i]))
}

/// The first of the names whose file is not among the files.
pub open spec fn first_missing(names: Seq<Seq<char>>, files: Seq<Seq<char>>) -> Option<Seq<char>>
    decreases names.len(),
{
    if names.len() == 0 {
        None
    } else {
        match first_missing(names.drop_last(), files) {
            Some(name) => Some(name),
            None => if files.contains(config_file_of(names.last())) {
                None
            } else {
                Some(names.last())
            },
        }
    }
}

/// Whether a file is a generator configuration: its extension is `yaml`.
pub open spec fn is_config_file(file: Seq<char>) -> bool {
    extension_of(file) == Some("yaml"@)
}

/// The generator configurations among the files, in their order.
pub open spec fn config_files_among(files: Seq<Seq<char>>) -> Seq<Seq<char>>
    decreases files.len(),
{
    if files.len() == 0 {
        Seq::empty()
    } else {
        let before = config_files_among(files.drop_last());
        if is_config_file(files.last()) {
            before.push(files.last())
        } else {
            before
        }
    }
}

/// The configuration files of a scope, or why it has none. Requested names
/// must each have their file; the first that has none rejects the scope. Where
/// nothing is requested, every configuration in the directory is taken. The
/// files come in ascending order, and a scope without any is rejected too.
pub open spec fn file_resolution(dir: Seq<char>, listing: DirListingView, requested: Seq<Seq<char>>)
    -> Result<Seq<Seq<char>>, ConfigErrorView> {
    match listing {
        DirListingView::Missing => Err(ConfigErrorView::MissingDirectory { dir }),
        DirListingView::Unreadable(message) => Err(ConfigErrorView::Unreadable { message }),
        DirListingView::Files(files) => {
            let names = requested_names(requested);
            if requested.len() > 0 && first_missing(names, files).is_some() {
                Err(
                    ConfigErrorView::MissingConfig {
                        path: joined_path(dir, config_file_of(first_missing(names, files).unwrap())),
                    },
                )
            } else {
                let chosen = in_order(
                    if requested.len() > 0 {
                        config_files_of(names)
                    } else {
                        config_files_among(files)
                    },
                );
                if chosen.len() == 0 {
                    Err(ConfigErrorView::NoConfigs { dir })
                } else {
                    Ok(chosen)
                }
            }
        },
    }
}

/// The files under the directory.
pub open spec fn paths_under(dir: Seq<char>, files: Seq<Seq<char>>) -> Seq<Seq<char>> {
    Seq::new(files.len(), |i: int| joined_path(dir, files[i]))
}

/// The paths of the configuration files of a scope, or why it has none.
pub open spec fn config_resolution(
    dir: Seq<char>,
    listing: DirListingView,
    requested: Seq<Seq<char>>,
) -> Result<Seq<Seq<char>>, ConfigErrorView> {
    match file_resolution(dir, listing, requested) {
        Ok(files) => Ok(paths_under(dir, files)),
        Err(e) => Err(e),
    }
}

/// Once a name of a prefix is found missing, it is the first for every
/// longer list.
proof fn lemma_first_missing_stays(names: Seq<Seq<char>>, files: Seq<Seq<char>>, n: int)
    requires
        0 <= n <= names.len(),
        first_missing(names.take(n), files).is_some(),
    ensures
        first_missing(names, files) == first_missing(names.take(n), files),
    decreases names.len() - n,
{
    if n < names.len() {
        assert(names.take(n + 1).drop_last() =~= names.take(n));
        lemma_first_missing_stays(names, files, n + 1);
    } else {
        assert(names.take(n) =~= names);
    }
}

/// The files of the requested names, or the error of the first that has none.
fn requested_files(dir: &str, files: &Vec<String>, requested: &Vec<String>) -> (result: Result<
    Vec<String>,
    ConfigError,
>)
    ensures
        match result {
            Ok(chosen) => first_missing(requested_names(texts(requested@)), texts(files@)).is_none()
                && texts(chosen@) == config_files_of(requested_names(texts(requested@))),
            Err(e) => first_missing(requested_names(texts(requested@)), texts(files@)).is_some()
                && e@ == (ConfigErrorView::MissingConfig {
                path: joined_path(
                    dir@,
                    config_file_of(
                        first_missing(requested_names(texts(requested@)), texts(files@)).unwrap(),
                    ),
                ),
            }),
        },
{
    let names = names_of(requested);
    let mut chosen: Vec<String> = Vec::new();
    let mut i: usize = 0;
    assert(texts(names@).take(0) =~= Seq::<Seq<char>>::empty());
    while i < names.len()
        invariant
            i <= names.len(),
            texts(names@) == requested_names(texts(requested@)),
            first_missing(texts(names@).take(i as int), texts(files@)).is_none(),
            texts(chosen@) == config_files_of(texts(names@).take(i as int)),
        decreases names.len() - i,
    {
        assert(texts(names@).take(i + 1).drop_last() =~= texts(names@).take(i as int));
        let mut file = names[i].clone();
        file.append(".yaml");
        if !contains_text(files, file.as_str()) {
            proof {
                lemma_first_missing_stays(texts(names@), texts(files@), i + 1);
            }
            return Err(ConfigError::MissingConfig { path: join_path(dir, file.as_str()) });
        }
        let ghost before = texts(chosen@);
        chosen.push(file);
        i += 1;
        assert(texts(chosen@) =~= before.push(file@));
        assert(texts(chosen@) =~= config_files_of(texts(names@).take(i as int)));
    }
    assert(texts(names@).take(i as int) =~= texts(names@));
    Ok(chosen)
}

/// The generator configurations among the files.
fn listed_files(files: &Vec<String>) -> (chosen: Vec<String>)
    ensures
        texts(chosen@) == config_files_among(texts(files@)),
{
    let mut chosen: Vec<String> = Vec::new();
    let mut i: usize = 0;
    assert(texts(files@).take(0) =~= Seq::<Seq<char>>::empty());
    while i < files.len()
        invariant
            i <= files.len(),
            texts(chosen@) == config_files_among(texts(files@).take(i as int)),
        decreases files.len() - i,
    {
        assert(texts(files@).take(i + 1).drop_last() =~= texts(files@).take(i as int));
        let ghost before = texts(chosen@);
        let is_config = match extension(files[i].as_str()) {
            Some(ext) => equal(ext.as_str(), "yaml"),
            None => false,
        };
        if is_config {
            let file = files[i].clone();
            chosen.push(file);
            assert(texts(chosen@) =~= before.push(file@));
        }
        i += 1;
    }
    assert(texts(files@).take(i as int) =~= texts(files@));
    chosen
}

/// The configuration files of a scope, or why it has none.
fn resolve_files(dir: &str, listing: &DirListing, requested: &Vec<String>) -> (result: Result<
    Vec<String>,
    ConfigError,
>)
    ensures
        match result {
            Ok(files) => file_resolution(dir@, listing@, texts(requested@)) == Ok::<
                Seq<Seq<char>>,
                ConfigErrorView,
            >(texts(files@)),
            Err(e) => file_resolution(dir@, listing@, texts(requested@)) == Err::<
                Seq<Seq<char>>,
                ConfigErrorView,
            >(e@),
        },
{
    match listing {
        DirListing::Missing => Err(ConfigError::MissingDirectory { dir: String::from_str(dir) }),
        DirListing::Unreadable(message) => Err(ConfigError::Unreadable { message: message.clone() }),
        DirListing::Files(files) => {
            let chosen = if requested.len() > 0 {
                match requested_files(dir, files, requested) {
                    Ok(chosen) => chosen,
                    Err(e) => {
                        return Err(e);
                    },
                }
            } else {
                listed_files(files)
            };
            let chosen = sort(chosen);
            if chosen.len() == 0 {
                Err(ConfigError::NoConfigs { dir: String::from_str(dir) })
            } else {
                Ok(chosen)
            }
        },
    }
}

/// Resolves the configuration files of a scope from what its directory holds
/// and what was requested. Gives their paths in ascending order of the file
/// names, or the reason for which the scope is rejected.
pub fn resolve_configs(dir: &str, listing: &DirListing, requested: &Vec<String>) -> (result: Result<
    Vec<String>,
    ConfigError,
>)
    ensures
        match result {
            Ok(paths) => config_resolution(dir@, listing@, texts(requested@)) == Ok::<
                Seq<Seq<char>>,
                ConfigErrorView,
            >(texts(paths@)),
            Err(e) => config_resolution(dir@, listing@, texts(requested@)) == Err::<
                Seq<Seq<char>>,
                ConfigErrorView,
            >(e@),
        },
{
    match resolve_files(dir, listing, requested) {
        Err(e) => Err(e),
        Ok(files) => {
            let mut paths: Vec<String> = Vec::new();
            let mut i: usize = 0;
            while i < files.len()
                invariant
                    i <= files.len(),
                    texts(paths@) == paths_under(dir@, texts(files@).take(i as int)),
                decreases files.len() - i,
            {
                let path = join_path(dir, files[i].as_str());
                let ghost before = texts(paths@);
                paths.push(path);
                i += 1;
                assert(texts(paths@) =~= before.push(path@));
                assert(texts(paths@) =~= paths_under(dir@, texts(files@).take(i as int)));
            }
            assert(texts(files@).take(i as int) =~= texts(files@));
            Ok(paths)
        },
    }
}

/// Where the configuration files of a scope are kept, seen from the
/// repository root.
pub open spec fn config_dir_in_repo(scope: Seq<char>) -> Seq<char> {
    joined_path(joined_path(OAV_DIR@, "generators"@), scope)
}

/// Where the configuration files of a scope are kept.
pub open spec fn config_dir_of(root: Seq<char>, scope: Seq<char>) -> Seq<char> {
    joined_path(joined_path(joined_path(root, OAV_DIR@), "generators"@), scope)
}

/// Where the configuration files of a scope are kept.
pub fn config_dir(root: &str, scope: &str) -> (dir: String)
    ensures
        dir@ == config_dir_of(root@, scope@),
{
    let workspace = join_path(root, OAV_DIR);
    let generators = join_path(workspace.as_str(), "generators");
    join_path(generators.as_str(), scope)
}

/// Where the reports of a scope go.
pub open spec fn report_dir_of(root: Seq<char>, scope: Seq<char>) -> Seq<char> {
    joined_path(stage_reports_of(root, "generate"@), scope)
}

/// The name of the generator that a configuration file is for.
pub open spec fn generator_name(file: Seq<char>) -> Seq<char> {
    match file_stem_of(file) {
        Some(stem) => stem,
        None => "unknown"@,
    }
}

/// The task that runs the generator of one configuration file: the generator
/// container, started as the given user, with the repository mounted at
/// `/work`.
pub open spec fn generate_task(
    root: Seq<char>,
    spec_path: Seq<char>,
    image: Seq<char>,
    scope: Seq<char>,
    file: Seq<char>,
    user: Option<User>,
) -> TaskView {
    let name = generator_name(file);
    let spec = in_container(spec_path);
    let config = in_container(joined_path(config_dir_in_repo(scope), file));
    TaskView {
        stage: Stage::Generate,
        scope,
        target: name,
        command: InvocationView {
            program: "docker"@,
            args: seq!["run"@, "--rm"@] + user_args_of(user) + seq![
                "-v"@,
                root + ":/work"@,
                "-w"@,
                "/work/"@ + OAV_DIR@,
                image,
                "generate"@,
                "-i"@,
                spec,
                "-c"@,
                config,
            ],
        },
        command_line: with_space_pairs_collapsed(
            "$ docker run --rm "@ + user_flag_of(user) + " -v "@ + root + ":/work -w /work/"@
                + OAV_DIR@ + " "@ + image + " generate -i "@ + spec + " -c "@ + config,
        ),
        log_path: joined_path(report_dir_of(root, scope), name + ".log"@),
    }
}

/// What stands for a scope that was rejected: the reason goes to the error log
/// of the scope.
pub open spec fn scope_rejection(root: Seq<char>, scope: Seq<char>, e: ConfigErrorView)
    -> RejectionView {
    RejectionView {
        stage: Stage::Generate,
        scope,
        message: config_error_message(e),
        log_path: joined_path(report_dir_of(root, scope), "_errors.log"@),
    }
}

/// The steps of one scope: a single rejection where its configuration files
/// cannot be resolved, else one task for each of them.
pub open spec fn scope_steps(
    root: Seq<char>,
    spec_path: Seq<char>,
    image: Seq<char>,
    scope: Seq<char>,
    listing: DirListingView,
    requested: Seq<Seq<char>>,
    user: Option<User>,
) -> Seq<StepView> {
    match file_resolution(config_dir_of(root, scope), listing, requested) {
        Err(e) => seq![StepView::Reject(scope_rejection(root, scope, e))],
        Ok(files) => Seq::new(
            files.len(),
            |i: int| StepView::Run(generate_task(root, spec_path, image, scope, files[i], user)),
        ),
    }
}

/// The task that runs the generator of one configuration file.
fn task_of(
    root: &str,
    spec_path: &str,
    image: &str,
    scope: &str,
    file: &str,
    user: Option<User>,
) -> (task: Task)
    ensures
        task@ == generate_task(root@, spec_path@, image@, scope@, file@, user),
{
    let name = match file_stem(file) {
        Some(stem) => stem,
        None => String::from_str("unknown"),
    };
    let spec = container_path(spec_path);
    let workspace_in_repo = join_path(OAV_DIR, "generators");
    let dir_in_repo = join_path(workspace_in_repo.as_str(), scope);
    let config = container_path(join_path(dir_in_repo.as_str(), file).as_str());
    let mut mount = String::from_str(root);
    mount.append(":/work");
    let mut workdir = String::from_str("/work/");
    workdir.append(OAV_DIR);

    let mut args: Vec<String> = Vec::new();
    args.push(String::from_str("run"));
    args.push(String::from_str("--rm"));
    let ghost head = texts(args@);
    assert(head =~= seq!["run"@, "--rm"@]);
    let mut user_part = user_args(user);
    args.append(&mut user_part);
    assert(texts(args@) =~= head + user_args_of(user));
    args.push(String::from_str("-v"));
    args.push(mount);
    args.push(String::from_str("-w"));
    args.push(workdir);
    args.push(String::from_str(image));
    args.push(String::from_str("generate"));
    args.push(String::from_str("-i"));
    args.push(spec.clone());
    args.push(String::from_str("-c"));
    args.push(config.clone());

    let mut line = String::from_str("$ docker run --rm ");
    line.append(user_flag(user).as_str());
    line.append(" -v ");
    line.append(root);
    line.append(":/work -w /work/");
    line.append(OAV_DIR);
    line.append(" ");
    line.append(image);
    line.append(" generate -i ");
    line.append(spec.as_str());
    line.append(" -c ");
    line.append(config.as_str());
    let command_line = collapse_space_pairs(line.as_str());

    let report_dir = join_path(stage_reports(root, "generate").as_str(), scope);
    let mut log_name = name.clone();
    log_name.append(".log");
    let task = Task {
        stage: Stage::Generate,
        scope: String::from_str(scope),
        target: name,
        command: Invocation { program: String::from_str("docker"), args },
        command_line,
        log_path: join_path(report_dir.as_str(), log_name.as_str()),
    };
    assert(task@.command.args =~= generate_task(
        root@,
        spec_path@,
        image@,
        scope@,
        file@,
        user,
    ).command.args);
    task
}

/// Plans one scope of the generate stage from what its configuration
/// directory holds. A scope whose configuration cannot be resolved yields the
/// one rejection that records the failure, and no task.
pub fn run_for_scope(
    root: &str,
    spec_path: &str,
    image: &str,
    scope: &str,
    listing: &DirListing,
    requested: &Vec<String>,
    user: Option<User>,
) -> (steps: Vec<Step>)
    ensures
        crate::steps::step_views(steps@) == scope_steps(
            root@,
            spec_path@,
            image@,
            scope@,
            listing@,
            texts(requested@),
            user,
        ),
{
    let dir = config_dir(root, scope);
    let mut steps: Vec<Step> = Vec::new();
    match resolve_files(dir.as_str(), listing, requested) {
        Err(e) => {
            let report_dir = join_path(stage_reports(root, "generate").as_str(), scope);
            let rejection = Rejection {
                stage: Stage::Generate,
                scope: String::from_str(scope),
                message: e.message(),
                log_path: join_path(report_dir.as_str(), "_errors.log"),
            };
            let ghost pushed = rejection@;
            steps.push(Step::Reject(rejection));
            assert(crate::steps::step_views(steps@) =~= seq![StepView::Reject(pushed)]);
            steps
        },
        Ok(files) => {
            let mut i: usize = 0;
            while i < files.len()
                invariant
                    i <= files.len(),
                    crate::steps::step_views(steps@) == Seq::new(
                        i as nat,
                        |j: int|
                            StepView::Run(
                                generate_task(
                                    root@,
                                    spec_path@,
                                    image@,
                                    scope@,
                                    texts(files@)[j],
                                    user,
                                ),
                            ),
                    ),
                decreases files.len() - i,
            {
                let task = task_of(root, spec_path, image, scope, files[i].as_str(), user);
                let ghost before = crate::steps::step_views(steps@);
                let ghost pushed = task@;
                steps.push(Step::Run(task));
                i += 1;
                assert(crate::steps::step_views(steps@) =~= before.push(StepView::Run(pushed)));
            }
            assert(crate::steps::step_views(steps@) =~= scope_steps(
                root@,
                spec_path@,
                image@,
                scope@,
                listing@,
                texts(requested@),
                user,
            ));
            steps
        },
    }
}

/// The steps of the generate stage: those of the server scope, then those of
/// the client scope, each where the mode covers it.
pub open spec fn generate_plan(
    root: Seq<char>,
    spec_path: Seq<char>,
    config: ConfigView,
    server: DirListingView,
    client: DirListingView,
    user: Option<User>,
) -> Seq<StepView> {
    (if config.mode.covers_server() {
        scope_steps(
            root,
            spec_path,
            config.generator_image,
            "server"@,
            server,
            config.server_generators,
            user,
        )
    } else {
        Seq::empty()
    }) + (if config.mode.covers_client() {
        scope_steps(
            root,
            spec_path,
            config.generator_image,
            "client"@,
            client,
            config.client_generators,
            user,
        )
    } else {
        Seq::empty()
    })
}

/// Plans the generate stage. `server` and `client` say what the configuration
/// directories of the two scopes hold; that of a scope outside the mode is not
/// looked at.
pub fn run(
    root: &str,
    spec_path: &str,
    config: &Config,
    server: &DirListing,
    client: &DirListing,
    user: Option<User>,
) -> (steps: Vec<Step>)
    ensures
        crate::steps::step_views(steps@) == generate_plan(
            root@,
            spec_path@,
            config@,
            server@,
            client@,
            user,
        ),
{
    let mut steps: Vec<Step> = Vec::new();
    assert(crate::steps::step_views(steps@) =~= Seq::<StepView>::empty());
    if config.mode.includes_server() {
        steps =
        run_for_scope(
            root,
            spec_path,
            config.generator_image.as_str(),
            "server",
            server,
            &config.server_generators,
            user,
        );
    }
    let ghost first = crate::steps::step_views(steps@);
    if config.mode.includes_client() {
        let mut second = run_for_scope(
            root,
            spec_path,
            config.generator_image.as_str(),
            "client",
            client,
            &config.client_generators,
            user,
        );
        let ghost second_view = crate::steps::step_views(second@);
        steps.append(&mut second);
        assert(crate::steps::step_views(steps@) =~= first + second_view);
    } else {
        assert(crate::steps::step_views(steps@) =~= first + Seq::<StepView>::empty());
    }
    steps
}

/// A name without file makes some name the first that is missing.
proof fn lemma_missing_name_is_found(names: Seq<Seq<char>>, files: Seq<Seq<char>>, k: int)
    requires
        0 <= k < names.len(),
        !files.contains(config_file_of(names[k])),
    ensures
        first_missing(names, files).is_some(),
    decreases names.len(),
{
    if k < names.len() - 1 {
        lemma_missing_name_is_found(names.drop_last(), files, k);
    }
}

/// Names come from requests only.
proof fn lemma_names_need_requests(requested: Seq<Seq<char>>)
    requires
        requested_names(requested).len() > 0,
    ensures
        requested.len() > 0,
{
}

/// Rejection is fail-fast: where a requested generator has no configuration
/// file, the plan of its scope is the one rejection and nothing else, no
/// generator of the scope runs, and the entry that stands for the scope is a
/// failure of the target `_config_`.
pub proof fn lemma_missing_config_rejects_scope(
    root: Seq<char>,
    spec_path: Seq<char>,
    image: Seq<char>,
    scope: Seq<char>,
    files: Seq<Seq<char>>,
    requested: Seq<Seq<char>>,
    user: Option<User>,
    name: Seq<char>,
)
    requires
        requested_names(requested).contains(name),
        !files.contains(config_file_of(name)),
    ensures
        ({
            let steps = scope_steps(
                root,
                spec_path,
                image,
                scope,
                DirListingView::Files(files),
                requested,
                user,
            );
            &&& steps.len() == 1
            &&& steps[0] is Reject
            &&& crate::steps::task_count(steps) == 0
            &&& forall|success: bool|
                {
                    let entry = #[trigger] crate::steps::step_entry(steps[0], success);
                    &&& entry.stage == "generate"@
                    &&& entry.scope == scope
                    &&& entry.target == "_config_"@
                    &&& entry.status == "fail"@
                }
        }),
{
    let names = requested_names(requested);
    let k = choose|k: int| 0 <= k < names.len() && names[k] == name;
    lemma_missing_name_is_found(names, files, k);
    lemma_names_need_requests(requested);
    let steps = scope_steps(
        root,
        spec_path,
        image,
        scope,
        DirListingView::Files(files),
        requested,
        user,
    );
    assert(steps.drop_last() =~= Seq::<StepView>::empty());
    assert(crate::steps::task_count(steps.drop_last()) == 0);
}

/// A scope that is rejected for any reason is planned as one rejection.
pub proof fn lemma_rejected_scope_has_one_step(
    root: Seq<char>,
    spec_path: Seq<char>,
    image: Seq<char>,
    scope: Seq<char>,
    listing: DirListingView,
    requested: Seq<Seq<char>>,
    user: Option<User>,
)
    requires
        file_resolution(config_dir_of(root, scope), listing, requested).is_err(),
    ensures
        scope_steps(root, spec_path, image, scope, listing, requested, user).len() == 1,
        scope_steps(root, spec_path, image, scope, listing, requested, user)[0] is Reject,
{
}

} // verus!
