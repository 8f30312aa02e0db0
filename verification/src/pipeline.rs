//! The order of the stages of a run and the count of those that failed.
//!
//! The pipeline is a state machine. `action` says what is to be done now; the
//! caller does it and reports with `record` what came of it. The stages run in
//! the order lint, generate, compile, report. A stage that is switched off is
//! passed over, compile also where generate is off, since it builds what
//! generate wrote. Every stage that is on runs whatever the stages before it
//! gave: a stage that failed, or whose plan was rejected, is counted, and the
//! run goes on. Only an error ends the run early: a log or the ledger that
//! cannot be written.

use crate::config::Config;
use crate::steps::Stage;
use crate::util::{join_path, joined_path, workspace, workspace_of};
use vstd::prelude::*;

verus! {

/// How far a run has come: the stage that is looked at next.
#[derive(Clone, Copy, Debug, PartialEq, Eq, Structural)]
pub enum Position {
    Lint,
    Generate,
    Compile,
    Report,
    Done,
}

/// What the caller is to do now.
#[derive(Clone, Copy, Debug, PartialEq, Eq, Structural)]
pub enum Action {
    /// Run the stage and report its outcome.
    Run(Stage),
    /// Say that compile is skipped because generate is off.
    SkipCompile,
    /// Nothing is left to do.
    Finish,
}

/// What came of an action.
#[derive(Clone, Copy, Debug, PartialEq, Eq, Structural)]
pub enum Outcome {
    /// Every task of the stage succeeded.
    Passed,
    /// A task of the stage failed, a scope was rejected, or the plan of the
    /// stage was rejected.
    Failed,
    /// The stage could not be carried through: a log or the ledger could not
    /// be written.
    Errored,
}

/// How a run ended.
#[derive(Clone, Copy, Debug, PartialEq, Eq, Structural)]
pub enum Verdict {
    /// The run has not ended.
    Running,
    /// No stage failed.
    Succeeded,
    /// So many stages failed.
    Failed(usize),
    /// An error ended the run.
    Aborted,
}

/// The state of a run.
#[derive(Clone, Copy, Debug, PartialEq, Eq, Structural)]
pub struct Pipeline {
    pub lint: bool,
    pub generate: bool,
    pub compile: bool,
    pub position: Position,
    pub lint_passed: bool,
    pub generate_passed: bool,
    pub compile_passed: bool,
    pub lint_failed: bool,
    pub generate_failed: bool,
    pub compile_failed: bool,
    pub aborted: bool,
}

/// The place of a position in the order of the run.
pub open spec fn rank(position: Position) -> nat {
    match position {
        Position::Lint => 0,
        Position::Generate => 1,
        Position::Compile => 2,
        Position::Report => 3,
        Position::Done => 4,
    }
}

impl Pipeline {
    /// Whether the stage runs at all: it is switched on, and compile only where
    /// generate is on too. Report always runs.
    pub open spec fn enabled(self, stage: Stage) -> bool {
        match stage {
            Stage::Lint => self.lint,
            Stage::Generate => self.generate,
            Stage::Compile => self.compile && self.generate,
            Stage::Report => true,
        }
    }

    /// What is to be done at the compile stage or behind it.
    pub open spec fn action_from_compile(self) -> Action {
        if self.compile {
            if self.generate {
                Action::Run(Stage::Compile)
            } else {
                Action::SkipCompile
            }
        } else {
            Action::Run(Stage::Report)
        }
    }

    /// What is to be done at the generate stage or behind it.
    pub open spec fn action_from_generate(self) -> Action {
        if self.generate {
            Action::Run(Stage::Generate)
        } else {
            self.action_from_compile()
        }
    }

    /// What is to be done now: the first stage from the position on that is on.
    pub open spec fn pending(self) -> Action {
        if self.aborted {
            Action::Finish
        } else {
            match self.position {
                Position::Lint => if self.lint {
                    Action::Run(Stage::Lint)
                } else {
                    self.action_from_generate()
                },
                Position::Generate => self.action_from_generate(),
                Position::Compile => self.action_from_compile(),
                Position::Report => Action::Run(Stage::Report),
                Position::Done => Action::Finish,
            }
        }
    }

    /// The state after the pending action gave `outcome`. A failed stage is
    /// counted and the run goes on; an error ends the run, except at the
    /// report, which is made as well as it can be and counts for nothing.
    pub open spec fn after(self, outcome: Outcome) -> Pipeline {
        match self.pending() {
            Action::Finish => self,
            Action::SkipCompile => Pipeline { position: Position::Report, ..self },
            Action::Run(Stage::Report) => Pipeline { position: Position::Done, ..self },
            Action::Run(stage) => {
                if outcome == Outcome::Errored {
                    Pipeline { position: Position::Done, aborted: true, ..self }
                } else {
                    let failed = outcome == Outcome::Failed;
                    match stage {
                        Stage::Lint => Pipeline {
                            position: Position::Generate,
                            lint_passed: !failed,
                            lint_failed: failed,
                            ..self
                        },
                        Stage::Generate => Pipeline {
                            position: Position::Compile,
                            generate_passed: !failed,
                            generate_failed: failed,
                            ..self
                        },
                        _ => Pipeline {
                            position: Position::Report,
                            compile_passed: !failed,
                            compile_failed: failed,
                            ..self
                        },
                    }
                }
            },
        }
    }

    /// How many stages passed. The report is not among them.
    pub open spec fn passed_count(self) -> nat {
        (if self.lint_passed {
            1nat
        } else {
            0nat
        }) + (if self.generate_passed {
            1nat
        } else {
            0nat
        }) + (if self.compile_passed {
            1nat
        } else {
            0nat
        })
    }

    /// How many stages failed.
    pub open spec fn failure_count(self) -> nat {
        (if self.lint_failed {
            1nat
        } else {
            0nat
        }) + (if self.generate_failed {
            1nat
        } else {
            0nat
        }) + (if self.compile_failed {
            1nat
        } else {
            0nat
        })
    }

    /// How the run ended, if it has.
    pub open spec fn outcome(self) -> Verdict {
        if self.aborted {
            Verdict::Aborted
        } else if self.position != Position::Done {
            Verdict::Running
        } else if self.failure_count() > 0 {
            Verdict::Failed(self.failure_count() as usize)
        } else {
            Verdict::Succeeded
        }
    }

    /// The run that a configuration asks for, at its beginning.
    pub open spec fn started(lint: bool, generate: bool, compile: bool) -> Pipeline {
        Pipeline {
            lint,
            generate,
            compile,
            position: Position::Lint,
            lint_passed: false,
            generate_passed: false,
            compile_passed: false,
            lint_failed: false,
            generate_failed: false,
            compile_failed: false,
            aborted: false,
        }
    }

    /// Begins the run that `config` asks for.
    pub fn start(config: &Config) -> (pipeline: Pipeline)
        ensures
            pipeline == Pipeline::started(config.lint, config.generate, config.compile),
    {
        Pipeline {
            lint: config.lint,
            generate: config.generate,
            compile: config.compile,
            position: Position::Lint,
            lint_passed: false,
            generate_passed: false,
            compile_passed: false,
            lint_failed: false,
            generate_failed: false,
            compile_failed: false,
            aborted: false,
        }
    }

    /// What is to be done at the compile stage or behind it.
    fn from_compile(&self) -> (action: Action)
        ensures
            action == self.action_from_compile(),
    {
        if self.compile {
            if self.generate {
                Action::Run(Stage::Compile)
            } else {
                Action::SkipCompile
            }
        } else {
            Action::Run(Stage::Report)
        }
    }

    /// What is to be done at the generate stage or behind it.
    fn from_generate(&self) -> (action: Action)
        ensures
            action == self.action_from_generate(),
    {
        if self.generate {
            Action::Run(Stage::Generate)
        } else {
            self.from_compile()
        }
    }

    /// What is to be done now.
    pub fn action(&self) -> (action: Action)
        ensures
            action == self.pending(),
    {
        if self.aborted {
            return Action::Finish;
        }
        match self.position {
            Position::Lint => {
                if self.lint {
                    Action::Run(Stage::Lint)
                } else {
                    self.from_generate()
                }
            },
            Position::Generate => self.from_generate(),
            Position::Compile => self.from_compile(),
            Position::Report => Action::Run(Stage::Report),
            Position::Done => Action::Finish,
        }
    }

    /// Takes note of what the pending action gave, and moves on.
    pub fn record(&mut self, outcome: Outcome)
        ensures
            *final(self) == old(self).after(outcome),
    {
        let errored = match outcome {
            Outcome::Errored => true,
            _ => false,
        };
        let failed = match outcome {
            Outcome::Failed => true,
            _ => false,
        };
        match self.action() {
            Action::Finish => {},
            Action::SkipCompile => {
                self.position = Position::Report;
            },
            Action::Run(Stage::Report) => {
                self.position = Position::Done;
            },
            Action::Run(stage) => {
                if errored {
                    self.position = Position::Done;
                    self.aborted = true;
                } else {
                    match stage {
                        Stage::Lint => {
                            self.position = Position::Generate;
                            self.lint_passed = !failed;
                            self.lint_failed = failed;
                        },
                        Stage::Generate => {
                            self.position = Position::Compile;
                            self.generate_passed = !failed;
                            self.generate_failed = failed;
                        },
                        _ => {
                            self.position = Position::Report;
                            self.compile_passed = !failed;
                            self.compile_failed = failed;
                        },
                    }
                }
            },
        }
    }

    /// How many stages passed. The report is not among them.
    pub fn passed(&self) -> (n: usize)
        ensures
            n == self.passed_count(),
    {
        let mut n: usize = 0;
        if self.lint_passed {
            n += 1;
        }
        if self.generate_passed {
            n += 1;
        }
        if self.compile_passed {
            n += 1;
        }
        n
    }

    /// How many stages failed. The report is not among them.
    pub fn failures(&self) -> (n: usize)
        ensures
            n == self.failure_count(),
    {
        let mut n: usize = 0;
        if self.lint_failed {
            n += 1;
        }
        if self.generate_failed {
            n += 1;
        }
        if self.compile_failed {
            n += 1;
        }
        n
    }

    /// How the run ended, if it has.
    pub fn verdict(&self) -> (verdict: Verdict)
        ensures
            verdict == self.outcome(),
    {
        if self.aborted {
            Verdict::Aborted
        } else if self.position != Position::Done {
            Verdict::Running
        } else if self.failures() > 0 {
            Verdict::Failed(self.failures())
        } else {
            Verdict::Succeeded
        }
    }
}

impl Verdict {
    /// The exit status of the process for a run that ended so: zero where no
    /// stage failed, one where stages failed or an error ended the run. A run
    /// that has not ended has none.
    pub fn exit_code(&self) -> (code: Option<i32>)
        ensures
            code == (match *self {
                Verdict::Running => None::<i32>,
                Verdict::Succeeded => Some(0i32),
                Verdict::Failed(_) => Some(1i32),
                Verdict::Aborted => Some(1i32),
            }),
    {
        match self {
            Verdict::Running => None,
            Verdict::Succeeded => Some(0),
            Verdict::Failed(_) => Some(1),
            Verdict::Aborted => Some(1),
        }
    }
}

/// Whether a run needs the container runtime: one of the three stages is on.
pub fn needs_docker(config: &Config) -> (r: bool)
    ensures
        r == (config.lint || config.generate || config.compile),
{
    config.lint || config.generate || config.compile
}

/// What the console says where compile is passed over.
pub const SKIP_COMPILE_NOTICE: &'static str = "Skipping compile (generate disabled)";

/// What a run says that ended with failed stages.
pub const FAILURE_MESSAGE: &'static str =
    "Validation finished with failures. See .oav/reports for details.";

/// What a run says that found no document to validate.
pub const NO_SPEC_MESSAGE: &'static str = "No OpenAPI spec found. Pass --spec or set spec in .oavc.";

/// What the console says at the end of a run without failures: that it is
/// complete, unless the console is quiet, and where its results are.
pub open spec fn completion_lines(root: Seq<char>, quiet: bool) -> Seq<Seq<char>> {
    let reports = joined_path(workspace_of(root), "reports"@);
    (if quiet {
        Seq::<Seq<char>>::empty()
    } else {
        seq!["Validation complete."@]
    }) + seq![
        "Generated: "@ + joined_path(workspace_of(root), "generated"@),
        "Reports: "@ + reports,
        "Dashboard: "@ + joined_path(reports, "dashboard.html"@),
    ]
}

/// What the console says at the end of a run without failures.
pub fn completion(root: &str, quiet: bool) -> (lines: Vec<String>)
    ensures
        crate::text::texts(lines@) == completion_lines(root@, quiet),
{
    let workspace = workspace(root);
    let reports = join_path(workspace.as_str(), "reports");
    let mut lines: Vec<String> = Vec::new();
    if !quiet {
        lines.push(String::from_str("Validation complete."));
    }
    let mut generated = String::from_str("Generated: ");
    generated.append(join_path(workspace.as_str(), "generated").as_str());
    lines.push(generated);
    let mut located = String::from_str("Reports: ");
    located.append(reports.as_str());
    lines.push(located);
    let mut dashboard = String::from_str("Dashboard: ");
    dashboard.append(join_path(reports.as_str(), "dashboard.html").as_str());
    lines.push(dashboard);
    assert(crate::text::texts(lines@) =~= completion_lines(root@, quiet));
    lines
}

impl Pipeline {
    /// The state after a sequence of outcomes, each recorded in its turn.
    pub open spec fn after_all(self, outcomes: Seq<Outcome>) -> Pipeline
        decreases outcomes.len(),
    {
        if outcomes.len() == 0 {
            self
        } else {
            self.after_all(outcomes.drop_last()).after(outcomes.last())
        }
    }

    /// What came of a stage is noted only once the stage has run, no stage
    /// both passed and failed, and a run that an error ended is over.
    pub open spec fn wf(self) -> bool {
        &&& rank(self.position) <= 0 ==> !self.lint_failed && !self.lint_passed
        &&& rank(self.position) <= 1 ==> !self.generate_failed && !self.generate_passed
        &&& rank(self.position) <= 2 ==> !self.compile_failed && !self.compile_passed
        &&& !(self.lint_passed && self.lint_failed)
        &&& !(self.generate_passed && self.generate_failed)
        &&& !(self.compile_passed && self.compile_failed)
        &&& self.aborted ==> self.position == Position::Done
    }
}

/// A run at its beginning is well formed, and stays so whatever is recorded.
pub proof fn lemma_run_stays_well_formed(p: Pipeline, outcome: Outcome)
    requires
        p.wf(),
    ensures
        p.after(outcome).wf(),
        forall|lint: bool, generate: bool, compile: bool|
            (#[trigger] Pipeline::started(lint, generate, compile)).wf(),
{
}

/// The switches of a run stay as the configuration set them.
pub proof fn lemma_switches_are_kept(p: Pipeline, outcomes: Seq<Outcome>)
    ensures
        p.after_all(outcomes).lint == p.lint,
        p.after_all(outcomes).generate == p.generate,
        p.after_all(outcomes).compile == p.compile,
    decreases outcomes.len(),
{
    if outcomes.len() > 0 {
        lemma_switches_are_kept(p, outcomes.drop_last());
    }
}

/// Compile is gated by generate: in a run with generate switched off the
/// compile stage is never asked for, whatever its own switch says and
/// whatever the stages before it gave.
pub proof fn lemma_compile_needs_generate(lint: bool, compile: bool, outcomes: Seq<Outcome>)
    ensures
        Pipeline::started(lint, false, compile).after_all(outcomes).pending() != Action::Run(
            Stage::Compile,
        ),
{
    lemma_switches_are_kept(Pipeline::started(lint, false, compile), outcomes);
}

/// A stage is asked for only where it is switched on.
pub proof fn lemma_only_enabled_stages_run(p: Pipeline, stage: Stage)
    requires
        p.pending() == Action::Run(stage),
    ensures
        p.enabled(stage),
{
}

/// The stages come in their order: every record moves the run on, until it
/// is over.
pub proof fn lemma_run_moves_on(p: Pipeline, outcome: Outcome)
    requires
        p.wf(),
        p.position != Position::Done,
    ensures
        rank(p.after(outcome).position) > rank(p.position),
{
}

/// The report is always made: a run that no error ended is over only once
/// the report has run.
pub proof fn lemma_report_comes_last(p: Pipeline, outcome: Outcome)
    requires
        p.position != Position::Done,
        p.after(outcome).position == Position::Done,
        !p.after(outcome).aborted,
    ensures
        p.pending() == Action::Run(Stage::Report),
{
}

/// Stages are counted, not tasks: a failed stage adds one to the failures,
/// and neither a stage that passed nor the report, however it ended, adds
/// anything.
pub proof fn lemma_failures_count_stages(p: Pipeline, outcome: Outcome)
    requires
        p.wf(),
    ensures
        p.after(outcome).failure_count() == p.failure_count() + (if outcome == Outcome::Failed
            && p.pending() != Action::Run(Stage::Report) && p.pending() != Action::SkipCompile
            && p.pending() != Action::Finish {
            1nat
        } else {
            0nat
        }),
{
}

/// A failed stage stops nothing: behind lint the run looks at generate, behind
/// generate at compile, behind compile at the report, passed or failed.
pub proof fn lemma_failure_does_not_stop(p: Pipeline, stage: Stage)
    requires
        p.pending() == Action::Run(stage),
    ensures
        p.after(Outcome::Failed).position == p.after(Outcome::Passed).position,
        !p.after(Outcome::Failed).aborted,
{
}

/// A run with a failed stage does not end well: once it is over, its verdict
/// names the failures, and the exit status that goes with it is not zero.
pub proof fn lemma_failed_stage_fails_the_run(p: Pipeline)
    requires
        p.position == Position::Done,
        !p.aborted,
        p.failure_count() > 0,
    ensures
        p.outcome() == Verdict::Failed(p.failure_count() as usize),
        p.outcome() != Verdict::Succeeded,
{
}

/// Every stage that ran to its end is counted once: a stage that passed adds
/// one to the passed, a stage that failed adds one to the failed, and the
/// report adds to neither.
pub proof fn lemma_stages_are_counted_once(p: Pipeline, outcome: Outcome)
    requires
        p.wf(),
    ensures
        ({
            let ran = p.pending() != Action::Run(Stage::Report) && p.pending()
                != Action::SkipCompile && p.pending() != Action::Finish;
            &&& p.after(outcome).passed_count() == p.passed_count() + (if ran && outcome
                == Outcome::Passed {
                1nat
            } else {
                0nat
            })
            &&& p.after(outcome).passed_count() + p.after(outcome).failure_count() <= 3
        }),
{
}

/// A compile stage that failed, be it that a build failed or that its plan
/// was rejected, is contained: it is counted as failed, no error ends the
/// run, and the report is what the run asks for next.
pub proof fn lemma_failed_compile_is_followed_by_report(p: Pipeline)
    requires
        p.pending() == Action::Run(Stage::Compile),
    ensures
        p.after(Outcome::Failed).compile_failed,
        !p.after(Outcome::Failed).aborted,
        p.after(Outcome::Failed).position == Position::Report,
        p.after(Outcome::Failed).pending() == Action::Run(Stage::Report),
{
}

} // verus!
