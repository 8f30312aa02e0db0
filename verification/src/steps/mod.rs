//! The stages of a run, their tasks, and the record of what became of them.

use crate::output::{Emit, EmitView, Opening, OpeningView, Output, status_mark};
use crate::pipeline::Outcome;
use crate::steps::report::{entry_views, StatusEntry, StatusEntryView};
use crate::text::texts;
use crate::util::{append_error, log_header_of, write_log_header};
use vstd::prelude::*;

pub mod compile;
pub mod generate;
pub mod lint;
pub mod report;

verus! {

/// A phase of the pipeline.
#[derive(Clone, Copy, Debug, PartialEq, Eq, Structural)]
pub enum Stage {
    Lint,
    Generate,
    Compile,
    Report,
}

/// The name of a stage in the ledger.
pub open spec fn stage_name(stage: Stage) -> Seq<char> {
    match stage {
        Stage::Lint => "lint"@,
        Stage::Generate => "generate"@,
        Stage::Compile => "compile"@,
        Stage::Report => "report"@,
    }
}

/// The name of a stage on the console.
pub open spec fn stage_title(stage: Stage) -> Seq<char> {
    match stage {
        Stage::Lint => "Lint"@,
        Stage::Generate => "Generate"@,
        Stage::Compile => "Compile"@,
        Stage::Report => "Report"@,
    }
}

impl Stage {
    /// Whether the console shows a spinner while the stage runs: lint and the
    /// report do, generate and compile show their tasks one by one.
    pub fn shows_spinner(&self) -> (r: bool)
        ensures
            r == (*self == Stage::Lint || *self == Stage::Report),
    {
        match self {
            Stage::Lint => true,
            Stage::Generate => false,
            Stage::Compile => false,
            Stage::Report => true,
        }
    }

    /// The name of the stage in the ledger.
    pub fn name(&self) -> (s: &'static str)
        ensures
            s@ == stage_name(*self),
    {
        match self {
            Stage::Lint => "lint",
            Stage::Generate => "generate",
            Stage::Compile => "compile",
            Stage::Report => "report",
        }
    }

    /// The name of the stage on the console.
    pub fn title(&self) -> (s: &'static str)
        ensures
            s@ == stage_title(*self),
    {
        match self {
            Stage::Lint => "Lint",
            Stage::Generate => "Generate",
            Stage::Compile => "Compile",
            Stage::Report => "Report",
        }
    }
}

/// An external program with its arguments.
#[derive(Debug)]
pub struct Invocation {
    pub program: String,
    pub args: Vec<String>,
}

/// The text of an `Invocation`.
pub struct InvocationView {
    pub program: Seq<char>,
    pub args: Seq<Seq<char>>,
}

impl View for Invocation {
    type V = InvocationView;

    open spec fn view(&self) -> InvocationView {
        InvocationView { program: self.program@, args: texts(self.args@) }
    }
}

/// One unit of work of a stage: what to run and where its output goes.
#[derive(Debug)]
pub struct Task {
    pub stage: Stage,
    pub scope: String,
    pub target: String,
    pub command: Invocation,
    /// The invocation as one would type it, for the head of the log.
    pub command_line: String,
    pub log_path: String,
}

/// The text of a `Task`.
pub struct TaskView {
    pub stage: Stage,
    pub scope: Seq<char>,
    pub target: Seq<char>,
    pub command: InvocationView,
    pub command_line: Seq<char>,
    pub log_path: Seq<char>,
}

impl View for Task {
    type V = TaskView;

    open spec fn view(&self) -> TaskView {
        TaskView {
            stage: self.stage,
            scope: self.scope@,
            target: self.target@,
            command: self.command@,
            command_line: self.command_line@,
            log_path: self.log_path@,
        }
    }
}

/// The status that the ledger records for an outcome.
pub open spec fn status_of(success: bool) -> Seq<char> {
    if success {
        "ok"@
    } else {
        "fail"@
    }
}

/// The entry that records the outcome of a task.
pub open spec fn entry_for(task: TaskView, success: bool) -> StatusEntryView {
    StatusEntryView {
        stage: stage_name(task.stage),
        scope: task.scope,
        target: task.target,
        status: status_of(success),
        log_path: task.log_path,
    }
}

/// How the console names a task: stage, scope and target.
pub open spec fn task_label(task: TaskView) -> Seq<char> {
    stage_title(task.stage) + seq![' '] + task.scope + seq![' '] + task.target
}

impl Task {
    /// The entry that records the outcome of the task.
    pub fn entry(&self, success: bool) -> (e: StatusEntry)
        ensures
            e@ == entry_for(self@, success),
    {
        StatusEntry {
            stage: String::from_str(self.stage.name()),
            scope: self.scope.clone(),
            target: self.target.clone(),
            status: String::from_str(
                if success {
                    "ok"
                } else {
                    "fail"
                },
            ),
            log_path: self.log_path.clone(),
        }
    }

    /// What the log of the task starts with.
    pub fn log_header(&self) -> (out: String)
        ensures
            out@ == log_header_of(self@.command_line),
    {
        write_log_header(self.command_line.as_str())
    }

    /// How the console names the task.
    pub fn label(&self) -> (out: String)
        ensures
            out@ == task_label(self@),
    {
        let mut out = String::from_str(self.stage.title());
        out.push(' ');
        out.append(self.scope.as_str());
        out.push(' ');
        out.append(self.target.as_str());
        assert(out@ =~= task_label(self@));
        out
    }
}

/// A scope that could not be resolved into tasks: nothing of it runs, and one
/// failed entry stands for it in the ledger.
#[derive(Debug)]
pub struct Rejection {
    pub stage: Stage,
    pub scope: String,
    /// Why the scope was rejected.
    pub message: String,
    /// The error log that takes the message.
    pub log_path: String,
}

/// The text of a `Rejection`.
pub struct RejectionView {
    pub stage: Stage,
    pub scope: Seq<char>,
    pub message: Seq<char>,
    pub log_path: Seq<char>,
}

impl View for Rejection {
    type V = RejectionView;

    open spec fn view(&self) -> RejectionView {
        RejectionView {
            stage: self.stage,
            scope: self.scope@,
            message: self.message@,
            log_path: self.log_path@,
        }
    }
}

/// The entry that stands for a rejected scope: failed, with the target
/// `_config_`.
pub open spec fn rejection_entry(r: RejectionView) -> StatusEntryView {
    StatusEntryView {
        stage: stage_name(r.stage),
        scope: r.scope,
        target: "_config_"@,
        status: "fail"@,
        log_path: r.log_path,
    }
}

impl Rejection {
    /// The entry that stands for the rejected scope.
    pub fn entry(&self) -> (e: StatusEntry)
        ensures
            e@ == rejection_entry(self@),
    {
        StatusEntry {
            stage: String::from_str(self.stage.name()),
            scope: self.scope.clone(),
            target: String::from_str("_config_"),
            status: String::from_str("fail"),
            log_path: self.log_path.clone(),
        }
    }

    /// The line that the error log takes.
    pub fn log_line(&self) -> (out: String)
        ensures
            out@ == self@.message.push('\n'),
    {
        append_error(self.message.as_str())
    }
}

/// One step of a stage: a task to run, or a rejection to record.
#[derive(Debug)]
pub enum Step {
    Run(Task),
    Reject(Rejection),
}

/// The text of a `Step`.
pub enum StepView {
    Run(TaskView),
    Reject(RejectionView),
}

impl View for Step {
    type V = StepView;

    open spec fn view(&self) -> StepView {
        match self {
            Step::Run(task) => StepView::Run(task@),
            Step::Reject(rejection) => StepView::Reject(rejection@),
        }
    }
}

/// The views of a sequence of steps.
pub open spec fn step_views(steps: Seq<Step>) -> Seq<StepView> {
    Seq::new(steps.len(), |i: int| steps[i]@)
}

/// The views of a sequence of tasks.
pub open spec fn task_views(tasks: Seq<Task>) -> Seq<TaskView> {
    Seq::new(tasks.len(), |i: int| tasks[i]@)
}

/// The entry that a step leaves in the ledger. The outcome decides for a task;
/// a rejection has failed whatever came back.
pub open spec fn step_entry(step: StepView, success: bool) -> StatusEntryView {
    match step {
        StepView::Run(task) => entry_for(task, success),
        StepView::Reject(rejection) => rejection_entry(rejection),
    }
}

/// No entry has the status `fail`.
pub open spec fn no_failure(entries: Seq<StatusEntryView>) -> bool {
    forall|i: int| 0 <= i < entries.len() ==> (#[trigger] entries[i]).status != "fail"@
}

/// The steps of one stage and the entries recorded for them so far. Steps are
/// taken in order, one entry is recorded for each, and none is ever changed.
/// A stage whose plan was rejected has no step to take and has failed.
pub struct StageRun {
    steps: Vec<Step>,
    entries: Vec<StatusEntry>,
    rejection: Option<String>,
}

impl StageRun {
    /// The steps of the stage.
    pub closed spec fn steps(&self) -> Seq<StepView> {
        step_views(self.steps@)
    }

    /// The entries recorded so far.
    pub closed spec fn entries(&self) -> Seq<StatusEntryView> {
        entry_views(self.entries@)
    }

    /// Why the plan of the stage was rejected, where it was.
    pub closed spec fn rejection(&self) -> Option<Seq<char>> {
        match self.rejection {
            Some(message) => Some(message@),
            None => None,
        }
    }

    /// Every entry records the step of its place, and a stage whose plan was
    /// rejected has no step.
    pub open spec fn wf(&self) -> bool {
        &&& self.rejection().is_some() ==> self.steps().len() == 0
        &&& self.entries().len() <= self.steps().len()
        &&& forall|i: int|
            0 <= i < self.entries().len() ==> (#[trigger] self.entries()[i] == step_entry(
                self.steps()[i],
                true,
            ) || self.entries()[i] == step_entry(self.steps()[i], false))
    }

    /// Every step has its entry.
    pub open spec fn finished(&self) -> bool {
        self.entries().len() >= self.steps().len()
    }

    /// The first step without an entry. It has a meaning while the run is not
    /// finished.
    pub open spec fn pending(&self) -> StepView {
        self.steps()[self.entries().len() as int]
    }

    /// The stage has succeeded so far: its plan was not rejected, and no
    /// recorded entry has failed.
    pub open spec fn success(&self) -> bool {
        self.rejection().is_none() && no_failure(self.entries())
    }

    /// What the pipeline is told of the stage: that it passed where it has
    /// succeeded, else that it failed.
    pub open spec fn stage_outcome(&self) -> Outcome {
        if self.success() {
            Outcome::Passed
        } else {
            Outcome::Failed
        }
    }

    /// A run of the given steps, none of them taken yet.
    pub fn new(steps: Vec<Step>) -> (run: StageRun)
        ensures
            run.wf(),
            run.steps() == step_views(steps@),
            run.entries() == Seq::<StatusEntryView>::empty(),
            run.rejection().is_none(),
    {
        let run = StageRun { steps, entries: Vec::new(), rejection: None };
        assert(run.entries() =~= Seq::<StatusEntryView>::empty());
        run
    }

    /// The run of a stage whose plan was rejected for the given reason:
    /// nothing of it runs, nothing is recorded, and the stage has failed.
    pub fn rejected(message: String) -> (run: StageRun)
        ensures
            run.wf(),
            run.steps() == Seq::<StepView>::empty(),
            run.entries() == Seq::<StatusEntryView>::empty(),
            run.rejection() == Some(message@),
    {
        let run = StageRun { steps: Vec::new(), entries: Vec::new(), rejection: Some(message) };
        assert(run.entries() =~= Seq::<StatusEntryView>::empty());
        assert(run.steps() =~= Seq::<StepView>::empty());
        run
    }

    /// Why the plan of the stage was rejected, where it was.
    pub fn reason(&self) -> (message: Option<String>)
        ensures
            match message {
                Some(text) => self.rejection() == Some(text@),
                None => self.rejection().is_none(),
            },
    {
        match &self.rejection {
            Some(message) => Some(message.clone()),
            None => None,
        }
    }

    /// Whether every step has its entry.
    pub fn is_finished(&self) -> (r: bool)
        ensures
            r == self.finished(),
    {
        self.entries.len() >= self.steps.len()
    }

    /// The step to take now, if one is left.
    pub fn next(&self) -> (step: Option<&Step>)
        ensures
            self.finished() ==> step.is_none(),
            !self.finished() ==> step.is_some() && step.unwrap()@ == self.pending(),
    {
        if self.entries.len() < self.steps.len() {
            Some(&self.steps[self.entries.len()])
        } else {
            None
        }
    }

    /// Records the outcome of the step that `next` gave and moves on. Returns
    /// the entry for the ledger file; `None`, and nothing changes, where no
    /// step was left.
    pub fn record(&mut self, success: bool) -> (entry: Option<StatusEntry>)
        requires
            old(self).wf(),
        ensures
            final(self).wf(),
            final(self).steps() == old(self).steps(),
            final(self).rejection() == old(self).rejection(),
            old(self).finished() ==> entry.is_none() && final(self).entries() == old(
                self,
            ).entries(),
            !old(self).finished() ==> entry.is_some() && entry.unwrap()@ == step_entry(
                old(self).pending(),
                success,
            ) && final(self).entries() == old(self).entries().push(entry.unwrap()@),
    {
        if self.entries.len() >= self.steps.len() {
            return None;
        }
        let entry = match &self.steps[self.entries.len()] {
            Step::Run(task) => task.entry(success),
            Step::Reject(rejection) => rejection.entry(),
        };
        let copy = entry.duplicate();
        let ghost before = self.entries();
        self.entries.push(entry);
        assert(self.entries() =~= before.push(copy@));
        Some(copy)
    }

    /// Whether the stage has succeeded so far: its plan was not rejected, and
    /// no recorded entry has failed.
    pub fn succeeded(&self) -> (r: bool)
        ensures
            r == self.success(),
    {
        if self.rejection.is_some() {
            return false;
        }
        let mut i: usize = 0;
        while i < self.entries.len()
            invariant
                i <= self.entries.len(),
                self.rejection().is_none(),
                forall|j: int| 0 <= j < i ==> (#[trigger] self.entries()[j]).status != "fail"@,
            decreases self.entries.len() - i,
        {
            if crate::text::equal(self.entries[i].status.as_str(), "fail") {
                assert(self.entries()[i as int].status == "fail"@);
                return false;
            }
            i += 1;
        }
        true
    }

    /// What the pipeline is told of the stage once it is finished: that it
    /// passed where it has succeeded, that it failed where a task failed, a
    /// scope was rejected, or the plan of the stage was rejected.
    pub fn outcome(&self) -> (outcome: Outcome)
        ensures
            outcome == self.stage_outcome(),
    {
        if self.succeeded() {
            Outcome::Passed
        } else {
            Outcome::Failed
        }
    }

    /// The entries recorded so far, in the order of the steps.
    pub fn recorded(&self) -> (entries: &Vec<StatusEntry>)
        ensures
            entry_views(entries@) == self.entries(),
    {
        &self.entries
    }
}

/// What the pipeline learns from the result of a stage: `Ok(true)` passed,
/// `Ok(false)` failed. An error is a log or the ledger that could not be
/// written; a plan that was rejected is no error but a stage that failed.
pub open spec fn outcome_of<E>(result: Result<bool, E>) -> Outcome {
    match result {
        Ok(true) => Outcome::Passed,
        Ok(false) => Outcome::Failed,
        Err(_) => Outcome::Errored,
    }
}

/// How a step ends: what the pipeline is told, and what the console shows.
#[derive(Debug)]
pub struct StepEnd {
    pub outcome: Outcome,
    pub emit: Emit,
}

/// How a step opens on the console: as `Output::start_spinner` says where a
/// spinner is asked for, else with nothing.
pub fn begin_step(output: &Output, label: &str, show_spinner: bool) -> (opening: Opening)
    ensures
        opening@ == (if !show_spinner {
            OpeningView::Silent
        } else if output.progress {
            OpeningView::Spinner(label@)
        } else if output.verbose && !output.quiet {
            OpeningView::Line("==> "@ + label@)
        } else {
            OpeningView::Silent
        }),
{
    if show_spinner {
        output.start_spinner(label)
    } else {
        Opening::Silent
    }
}

/// Closes the step that `begin_step` opened, with the result of what ran in
/// between. Only `Ok(true)` counts as success. The console shows mark and
/// label where a summary is asked for and the console is not quiet.
pub fn run_step<E>(output: &Output, label: &str, show_summary: bool, result: &Result<bool, E>) -> (end:
    StepEnd)
    ensures
        end.outcome == outcome_of(*result),
        end.emit@ == (if show_summary && !output.quiet {
            EmitView::Line(
                status_mark(output.color, *result matches Ok(true)) + " "@ + label@,
            )
        } else {
            EmitView::Nothing
        }),
{
    let outcome = match result {
        Ok(true) => Outcome::Passed,
        Ok(false) => Outcome::Failed,
        Err(_) => Outcome::Errored,
    };
    let success = match result {
        Ok(true) => true,
        _ => false,
    };
    let emit = if show_summary {
        output.finish_spinner(label, success)
    } else {
        Emit::Nothing
    };
    StepEnd { outcome, emit }
}

/// How many of the steps are tasks.
pub open spec fn task_count(steps: Seq<StepView>) -> nat
    decreases steps.len(),
{
    if steps.len() == 0 {
        0
    } else {
        task_count(steps.drop_last()) + if steps.last() is Run {
            1nat
        } else {
            0nat
        }
    }
}

/// How many of the steps are rejections.
pub open spec fn rejection_count(steps: Seq<StepView>) -> nat
    decreases steps.len(),
{
    if steps.len() == 0 {
        0
    } else {
        rejection_count(steps.drop_last()) + if steps.last() is Reject {
            1nat
        } else {
            0nat
        }
    }
}

/// Every step is a task or a rejection.
pub proof fn lemma_steps_are_tasks_or_rejections(steps: Seq<StepView>)
    ensures
        task_count(steps) + rejection_count(steps) == steps.len(),
    decreases steps.len(),
{
    if steps.len() > 0 {
        lemma_steps_are_tasks_or_rejections(steps.drop_last());
    }
}

/// No step is dropped: a finished run holds one entry for each step, at the
/// place of the step, and so as many entries as the stage has tasks and
/// rejections.
pub proof fn lemma_finished_run_records_every_step(run: StageRun)
    requires
        run.wf(),
        run.finished(),
    ensures
        run.entries().len() == run.steps().len(),
        run.entries().len() == task_count(run.steps()) + rejection_count(run.steps()),
        forall|i: int|
            0 <= i < run.steps().len() ==> (#[trigger] run.entries()[i] == step_entry(
                run.steps()[i],
                true,
            ) || run.entries()[i] == step_entry(run.steps()[i], false)),
{
    lemma_steps_are_tasks_or_rejections(run.steps());
}

/// Where no scope was rejected, a finished stage has as many entries as tasks
/// were resolved for it.
pub proof fn lemma_one_entry_for_each_task(run: StageRun)
    requires
        run.wf(),
        run.finished(),
        rejection_count(run.steps()) == 0,
    ensures
        run.entries().len() == task_count(run.steps()),
{
    lemma_steps_are_tasks_or_rejections(run.steps());
}

/// The entry of a task carries the stage, scope, target and log of the task,
/// and `ok` or `fail` for its outcome; the two differ.
pub proof fn lemma_entry_tells_outcome(task: TaskView)
    ensures
        entry_for(task, true).status == "ok"@,
        entry_for(task, false).status == "fail"@,
        entry_for(task, true).status != entry_for(task, false).status,
{
    reveal_strlit("ok");
    reveal_strlit("fail");
    assert("ok"@.len() != "fail"@.len());
}

/// A stage succeeds exactly where none of its steps failed: a rejected scope,
/// or one task that failed, fails the stage, whatever the other tasks gave.
pub proof fn lemma_one_failure_fails_the_stage(
    entries: Seq<StatusEntryView>,
    steps: Seq<StepView>,
    i: int,
)
    requires
        0 <= i < entries.len() <= steps.len(),
        entries[i] == step_entry(steps[i], false),
    ensures
        !no_failure(entries),
{
    assert(entries[i].status == "fail"@);
}

/// A stage whose plan was rejected has failed before anything ran: it has no
/// step to take, is finished, and has not succeeded.
pub proof fn lemma_rejected_plan_fails_the_stage(run: StageRun)
    requires
        run.wf(),
        run.rejection().is_some(),
    ensures
        run.steps().len() == 0,
        run.entries().len() == 0,
        run.finished(),
        !run.success(),
{
}

} // verus!
