//! The run machine: resolves a task into the processes to run, one request
//! to the host at a time.
//!
//! The host loop is the same for every run: take the [`Action`] of the
//! machine, do what it asks, and hand the answer to [`Machine::step`] as an
//! [`Event`], until the action is [`Action::Done`]. The machine decides what
//! runs, where, with what environment, in which order, and when a failure
//! ends the run; it never acts itself.

use std::sync::Arc;
use vstd::prelude::*;
use crate::config::{
    copy_step_defs, copy_step_list, opt_step_list, step_defs, step_list, Config, Step, StepDef,
    Task, TaskDef, CONFIG_FILE,
};
use crate::env::EnvMap;
use crate::error::{
    error_list, lemma_parallel_failure_view, outcome_list, outcome_model, ExecutionError,
};
use crate::path::DirPath;
use crate::semantics;
use crate::semantics::{
    ActionModel, Choice, ContextModel, EventModel, FrameModel, MachineModel, PendingModel,
    ProbeModel, Turn,
};
use crate::text::opt_text;

verus! {

/// Where and with what a task runs: the directory used when the task names
/// none, the environment it inherits, and the document in scope with the
/// directory that document is rooted at. A context is handed down from call
/// to call and never shared for writing.
#[derive(Debug)]
pub struct ExecutionContext {
    pub dir: DirPath,
    pub env: EnvMap,
    pub root: DirPath,
    pub document: Arc<Config>,
}

impl View for ExecutionContext {
    type V = ContextModel;

    open spec fn view(&self) -> ContextModel {
        ContextModel {
            dir: self.dir@,
            env: self.env@,
            root: self.root@,
            document: self.document@,
        }
    }
}

/// `Arc::clone`: one more handle on the same document. The document is not
/// copied, so the new handle shows the value the old one shows.
#[verifier::external_body]
fn share(document: &Arc<Config>) -> (shared: Arc<Config>)
    ensures
        shared == *document,
{
    Arc::clone(document)
}

impl ExecutionContext {
    /// The context of a project: the document rooted at `root`, run from
    /// that directory with the environment `env`.
    pub fn new(root: DirPath, env: EnvMap, document: Config) -> (context: ExecutionContext)
        ensures
            context@ == (ContextModel {
                dir: root@,
                env: env@,
                root: root@,
                document: document@,
            }),
    {
        ExecutionContext { dir: root.clone(), env, root, document: Arc::new(document) }
    }
}

impl Clone for ExecutionContext {
    fn clone(&self) -> (copy: ExecutionContext)
        ensures
            copy@ == self@,
    {
        ExecutionContext {
            dir: self.dir.clone(),
            env: self.env.clone(),
            root: self.root.clone(),
            document: share(&self.document),
        }
    }
}

/// A step list in progress.
#[derive(Debug)]
pub struct Frame {
    pub steps: Vec<Step>,
    /// Position of the step to take next.
    pub next: usize,
    pub context: ExecutionContext,
}

impl View for Frame {
    type V = FrameModel;

    open spec fn view(&self) -> FrameModel {
        FrameModel { steps: step_list(self.steps@), next: self.next as int, context: self.context@ }
    }
}

/// The values of a stack of frames.
pub open spec fn frame_list(v: Seq<Frame>) -> Seq<FrameModel> {
    v.map_values(|f: Frame| f@)
}

/// What a machine is about to do, or is waiting for.
#[derive(Debug)]
pub enum Pending {
    /// A task is to be looked up and entered.
    Resolve { name: String, context: ExecutionContext },
    /// A single step is to be taken.
    Step { step: StepDef, context: ExecutionContext },
    /// The innermost step list is to go on.
    Advance,
    /// A process was asked for; its exit is awaited.
    Command { command: String, dir: DirPath, env: EnvMap },
    /// A definition file was asked for in `context.dir`; `task` is delegated
    /// to once it is known whether there is one.
    Probe { task: String, context: ExecutionContext },
    /// The steps of a parallel group were handed out; their results are
    /// awaited.
    Join { steps: Vec<StepDef>, context: ExecutionContext },
    /// The run is over.
    Finished { outcome: Result<(), ExecutionError> },
}

impl View for Pending {
    type V = PendingModel;

    open spec fn view(&self) -> PendingModel {
        match self {
            Pending::Resolve { name, context } => PendingModel::Resolve {
                name: name@,
                context: context@,
            },
            Pending::Step { step, context } => PendingModel::Step { step: step@, context: context@ },
            Pending::Advance => PendingModel::Advance,
            Pending::Command { command, dir, env } => PendingModel::Command {
                command: command@,
                dir: dir@,
                env: env@,
            },
            Pending::Probe { task, context } => PendingModel::Probe {
                task: task@,
                context: context@,
            },
            Pending::Join { steps, context } => PendingModel::Join {
                steps: step_defs(steps@),
                context: context@,
            },
            Pending::Finished { outcome } => PendingModel::Finished {
                outcome: outcome_model(*outcome),
            },
        }
    }
}

/// A run at one moment: the step lists in progress, innermost last, and what
/// the run is about to do or is waiting for.
#[derive(Debug)]
pub struct Machine {
    pub frames: Vec<Frame>,
    pub pending: Pending,
}

impl View for Machine {
    type V = MachineModel;

    open spec fn view(&self) -> MachineModel {
        MachineModel { frames: frame_list(self.frames@), pending: self.pending@ }
    }
}

/// The values of a list of machines.
pub open spec fn machine_list(v: Seq<Machine>) -> Seq<MachineModel> {
    v.map_values(|m: Machine| m@)
}

/// What the host found where a definition file was asked for.
#[derive(Debug)]
pub enum ProbeResult {
    /// No such file.
    Absent,
    /// The file, read and understood.
    Loaded { document: Config },
    /// A file that could not be read or understood.
    Failed { cause: String },
}

impl View for ProbeResult {
    type V = ProbeModel;

    open spec fn view(&self) -> ProbeModel {
        match self {
            ProbeResult::Absent => ProbeModel::Absent,
            ProbeResult::Loaded { document } => ProbeModel::Loaded { document: document@ },
            ProbeResult::Failed { cause } => ProbeModel::Failed { cause: cause@ },
        }
    }
}

/// The value of an exit code.
pub open spec fn code_model(code: Option<i32>) -> Option<int> {
    match code {
        Some(c) => Some(c as int),
        None => None,
    }
}

/// What the host reports back.
#[derive(Debug)]
pub enum Event {
    /// Nothing was asked for; the machine may go on.
    Resume,
    /// The process ran and exited, with a code unless a signal ended it.
    Exited { code: Option<i32> },
    /// The process could not be started.
    SpawnFailed { cause: String },
    /// The definition file was looked for.
    Probed { found: ProbeResult },
    /// Every branch has run to its end; the results are in the order of the
    /// branches.
    Joined { results: Vec<Result<(), ExecutionError>> },
}

impl View for Event {
    type V = EventModel;

    open spec fn view(&self) -> EventModel {
        match self {
            Event::Resume => EventModel::Resume,
            Event::Exited { code } => EventModel::Exited { code: code_model(*code) },
            Event::SpawnFailed { cause } => EventModel::SpawnFailed { cause: cause@ },
            Event::Probed { found } => EventModel::Probed { found: found@ },
            Event::Joined { results } => EventModel::Joined { results: outcome_list(results@) },
        }
    }
}

/// What a machine asks of its host.
#[derive(Debug)]
pub enum Action {
    /// Nothing: report [`Event::Resume`].
    Continue,
    /// Run `command` through the shell in `dir`, with `env` laid over the
    /// host's own environment, and report how it ended.
    Run { command: String, dir: DirPath, env: EnvMap },
    /// Look for the file `file` in `dir`, load it if it is there, and report
    /// what was found.
    Probe { dir: DirPath, file: String },
    /// Run every branch to its end, all at once and none waiting for
    /// another, and report all results in the order of the branches.
    Fork { branches: Vec<Machine> },
    /// The run is over.
    Done { outcome: Result<(), ExecutionError> },
}

impl View for Action {
    type V = ActionModel;

    open spec fn view(&self) -> ActionModel {
        match self {
            Action::Continue => ActionModel::Continue,
            Action::Run { command, dir, env } => ActionModel::Run {
                command: command@,
                dir: dir@,
                env: env@,
            },
            Action::Probe { dir, file } => ActionModel::Probe { dir: dir@, file: file@ },
            Action::Fork { branches } => ActionModel::Fork { branches: machine_list(branches@) },
            Action::Done { outcome } => ActionModel::Done { outcome: outcome_model(*outcome) },
        }
    }
}

/// The one action of a task or a step.
pub enum Chosen<'a> {
    Steps { steps: &'a Vec<Step> },
    Delegate { task: &'a String },
    Command { command: &'a String },
    Nothing,
}

impl<'a> View for Chosen<'a> {
    type V = Choice;

    open spec fn view(&self) -> Choice {
        match self {
            Chosen::Steps { steps } => Choice::Steps { steps: step_list(steps@) },
            Chosen::Delegate { task } => Choice::Delegate { task: task@ },
            Chosen::Command { command } => Choice::Command { command: command@ },
            Chosen::Nothing => Choice::Nothing,
        }
    }
}

/// Which action wins: steps before a delegation, a delegation before a
/// command. Tasks and steps go by this one rule.
pub fn choose_action<'a>(
    steps: &'a Option<Vec<Step>>,
    task: &'a Option<String>,
    cmd: &'a Option<String>,
) -> (chosen: Chosen<'a>)
    ensures
        chosen@ == semantics::choose_action(
            opt_step_list(*steps),
            opt_text(*task),
            opt_text(*cmd),
        ),
{
    match steps {
        Some(s) => Chosen::Steps { steps: s },
        None => match task {
            Some(t) => Chosen::Delegate { task: t },
            None => match cmd {
                Some(c) => Chosen::Command { command: c },
                None => Chosen::Nothing,
            },
        },
    }
}

/// The directory to work in: `dir` resolved against the document's root where
/// one is named, else the inherited directory.
pub fn work_dir(context: &ExecutionContext, dir: &Option<String>) -> (path: DirPath)
    ensures
        path@ == semantics::work_dir(context@, opt_text(*dir)),
{
    match dir {
        Some(d) => context.root.join(d.as_str()),
        None => context.dir.clone(),
    }
}

/// A delegation to `task`: where the delegating task or step named a
/// directory, that directory is first probed for a document of its own.
pub fn delegate(task: String, probe: bool, context: ExecutionContext) -> (pending: Pending)
    ensures
        pending@ == semantics::delegate(task@, probe, context@),
{
    if probe {
        Pending::Probe { task, context }
    } else {
        Pending::Resolve { name: task, context }
    }
}

/// Takes the single step `step`: a delegation if it names a task, else its
/// command; a step with neither fails.
pub fn execute_step_def(step: &StepDef, context: ExecutionContext) -> (pending: Pending)
    ensures
        pending@ == semantics::step_def_pending(step@, context@),
{
    let dir = work_dir(&context, &step.dir);
    let no_steps: Option<Vec<Step>> = None;
    match choose_action(&no_steps, &step.task, &step.cmd) {
        Chosen::Delegate { task } => {
            let ExecutionContext { dir: _, env, root, document } = context;
            delegate(task.clone(), step.dir.is_some(), ExecutionContext { dir, env, root, document })
        },
        Chosen::Command { command } => Pending::Command {
            command: command.clone(),
            dir,
            env: context.env,
        },
        _ => Pending::Finished { outcome: Err(ExecutionError::NoAction) },
    }
}

/// Takes one position of a step list: a single step, or a parallel group to
/// hand out.
pub fn execute_step(step: &Step, context: ExecutionContext) -> (pending: Pending)
    ensures
        pending@ == semantics::step_pending(step@, context@),
{
    match step {
        Step::Simple(def) => execute_step_def(def, context),
        Step::Parallel { parallel } => Pending::Join { steps: copy_step_defs(parallel), context },
    }
}

/// How a machine goes on once a task is looked at: into a step list, or to
/// something pending.
#[derive(Debug)]
pub enum Entered {
    Enter { frame: Frame },
    Pend { pending: Pending },
}

impl View for Entered {
    type V = Turn;

    open spec fn view(&self) -> Turn {
        match self {
            Entered::Enter { frame } => Turn::Enter { frame: frame@ },
            Entered::Pend { pending } => Turn::Pend { pending: pending@ },
        }
    }
}

/// Enters the structured task `task`: works out its directory and its
/// environment, then turns to its steps, its delegation or its command,
/// whichever comes first; a task with none of them fails.
pub fn execute_full_task(task: &Task, context: ExecutionContext) -> (entered: Entered)
    ensures
        entered@ == semantics::full_task_turn(task@, context@),
{
    let dir = work_dir(&context, &task.dir);
    let env = context.env.merged(&task.env);
    let ExecutionContext { dir: _, env: _, root, document } = context;
    match choose_action(&task.steps, &task.task, &task.cmd) {
        Chosen::Steps { steps } => Entered::Enter {
            frame: Frame {
                steps: copy_step_list(steps),
                next: 0,
                context: ExecutionContext { dir, env, root, document },
            },
        },
        Chosen::Delegate { task: target } => Entered::Pend {
            pending: delegate(
                target.clone(),
                task.dir.is_some(),
                ExecutionContext { dir, env, root, document },
            ),
        },
        Chosen::Command { command } => Entered::Pend {
            pending: Pending::Command { command: command.clone(), dir, env },
        },
        Chosen::Nothing => Entered::Pend {
            pending: Pending::Finished { outcome: Err(ExecutionError::NoAction) },
        },
    }
}

/// Enters a task of the definition `def`: a bare command runs in the
/// inherited directory with the inherited environment.
pub fn execute_task_def(def: &TaskDef, context: ExecutionContext) -> (entered: Entered)
    ensures
        entered@ == semantics::task_def_turn(def@, context@),
{
    match def {
        TaskDef::Shorthand(command) => Entered::Pend {
            pending: Pending::Command {
                command: command.clone(),
                dir: context.dir,
                env: context.env,
            },
        },
        TaskDef::Full(task) => execute_full_task(task, context),
    }
}

/// Looks the task `name` up in the document in scope and enters it; a name
/// the document does not have fails the run.
pub fn resolve_task(name: String, context: ExecutionContext) -> (entered: Entered)
    ensures
        entered@ == semantics::task_turn(name@, context@),
{
    let document = share(&context.document);
    match document.get_task(name.as_str()) {
        Some(def) => execute_task_def(def, context),
        None => Entered::Pend {
            pending: Pending::Finished {
                outcome: Err(
                    ExecutionError::TaskNotFound { name, document: context.root.join(CONFIG_FILE) },
                ),
            },
        },
    }
}

/// The result of a process that exited with `code`: success on code 0, else
/// a failure that holds the command and the code; a process that ended
/// without a code counts as code 1.
pub fn command_result(command: String, code: Option<i32>) -> (outcome: Result<(), ExecutionError>)
    ensures
        outcome_model(outcome) == semantics::exit_outcome(command@, code_model(code)),
{
    match code {
        Some(c) => if c == 0 {
            Ok(())
        } else {
            Err(ExecutionError::CommandFailed { command, exit_code: c })
        },
        None => Err(ExecutionError::CommandFailed { command, exit_code: 1 }),
    }
}

/// The result of a parallel group whose branches ended with `results`:
/// success if none failed, else one failure that lists every failure, in the
/// order of the group.
pub fn join_results(results: Vec<Result<(), ExecutionError>>) -> (outcome: Result<
    (),
    ExecutionError,
>)
    ensures
        outcome_model(outcome) == semantics::aggregate(outcome_list(results@)),
{
    let ghost all = outcome_list(results@);
    let mut results = results;
    let mut failures: Vec<ExecutionError> = Vec::new();
    while results.len() > 0
        invariant
            semantics::failures_of(all) == error_list(failures@)
                + semantics::failures_of(outcome_list(results@)),
        decreases results.len(),
    {
        let ghost before = outcome_list(results@);
        let ghost collected = error_list(failures@);
        let first = results.remove(0);
        assert(outcome_list(results@) =~= before.drop_first());
        match first {
            Ok(_) => {},
            Err(e) => {
                failures.push(e);
                assert(error_list(failures@) =~= collected + seq![e@]);
                assert(collected + (seq![e@] + semantics::failures_of(
                    before.drop_first(),
                )) =~= (collected + seq![e@]) + semantics::failures_of(
                    before.drop_first(),
                ));
            },
        }
    }
    assert(semantics::failures_of(all) =~= error_list(failures@));
    if failures.len() == 0 {
        Ok(())
    } else {
        proof {
            lemma_parallel_failure_view(failures);
        }
        Err(ExecutionError::ParallelFailure { failures })
    }
}

/// The machine that has failed with `error`.
pub fn failed(error: ExecutionError) -> (machine: Machine)
    ensures
        machine@ == semantics::failed(error@),
{
    let machine = Machine { frames: Vec::new(), pending: Pending::Finished { outcome: Err(error) } };
    assert(frame_list(machine.frames@) =~= Seq::empty());
    machine
}

/// The machine after something succeeded: the innermost step list goes on,
/// and where none is left the run is over.
pub fn proceed(frames: Vec<Frame>) -> (machine: Machine)
    ensures
        machine@ == semantics::proceed(frame_list(frames@)),
{
    if frames.len() == 0 {
        Machine { frames, pending: Pending::Finished { outcome: Ok(()) } }
    } else {
        Machine { frames, pending: Pending::Advance }
    }
}

/// The machine after something ended with `outcome`: the first failure ends
/// the run, whatever step lists are in progress.
pub fn conclude(frames: Vec<Frame>, outcome: Result<(), ExecutionError>) -> (machine: Machine)
    ensures
        machine@ == semantics::conclude(frame_list(frames@), outcome_model(outcome)),
{
    match outcome {
        Ok(_) => proceed(frames),
        Err(e) => failed(e),
    }
}

/// The machine with `pending` as the thing to do next.
pub fn pend(frames: Vec<Frame>, pending: Pending) -> (machine: Machine)
    ensures
        machine@ == semantics::pend(frame_list(frames@), pending@),
{
    match pending {
        Pending::Finished { outcome } => conclude(frames, outcome),
        _ => Machine { frames, pending },
    }
}

/// The machine after a task was looked at.
pub fn settle(frames: Vec<Frame>, entered: Entered) -> (machine: Machine)
    ensures
        machine@ == semantics::settle(frame_list(frames@), entered@),
{
    match entered {
        Entered::Enter { frame } => {
            let mut frames = frames;
            let ghost before = frames@;
            frames.push(frame);
            assert(frame_list(frames@) =~= frame_list(before).push(frame@));
            Machine { frames, pending: Pending::Advance }
        },
        Entered::Pend { pending } => pend(frames, pending),
    }
}

/// The machine after its innermost step list went on by one position: a list
/// at its end is left, otherwise its next step is taken. A later step never
/// starts before this is called again, which is after the step before it has
/// ended.
pub fn advance(frames: Vec<Frame>) -> (machine: Machine)
    ensures
        machine@ == semantics::advance(frame_list(frames@)),
{
    let mut frames = frames;
    let ghost before = frames@;
    match frames.pop() {
        None => proceed(frames),
        Some(top) => {
            assert(frame_list(frames@) =~= frame_list(before).drop_last());
            assert(frame_list(before).last() == top@);
            if top.next < top.steps.len() {
                let pending = execute_step(&top.steps[top.next], top.context.clone());
                let Frame { steps, next, context } = top;
                let moved = Frame { steps, next: next + 1, context };
                frames.push(moved);
                assert(frame_list(frames@) =~= frame_list(before).update(
                    before.len() - 1,
                    moved@,
                ));
                pend(frames, pending)
            } else {
                proceed(frames)
            }
        },
    }
}

/// The machine after the probe for a nested document was answered. A document
/// that was found takes over the scope, rooted at the probed directory; the
/// environment is kept. Where none was found the delegation stays within the
/// document in scope.
pub fn probed(
    frames: Vec<Frame>,
    task: String,
    context: ExecutionContext,
    found: ProbeResult,
) -> (machine: Machine)
    ensures
        machine@ == semantics::probed(frame_list(frames@), task@, context@, found@),
{
    match found {
        ProbeResult::Absent => Machine { frames, pending: Pending::Resolve { name: task, context } },
        ProbeResult::Loaded { document } => {
            let ExecutionContext { dir, env, root: _, document: _ } = context;
            let root = dir.clone();
            Machine {
                frames,
                pending: Pending::Resolve {
                    name: task,
                    context: ExecutionContext { dir, env, root, document: Arc::new(document) },
                },
            }
        },
        ProbeResult::Failed { cause } => failed(
            ExecutionError::DocumentLoadFailed { path: context.dir.join(CONFIG_FILE), cause },
        ),
    }
}

/// The machines of a parallel group, one for each step, in the group's order.
/// Each runs its step in a copy of the group's context.
pub fn fork(steps: &Vec<StepDef>, context: &ExecutionContext) -> (branches: Vec<Machine>)
    ensures
        machine_list(branches@) == semantics::branches(step_defs(steps@), context@),
{
    let mut branches: Vec<Machine> = Vec::new();
    let mut i: usize = 0;
    while i < steps.len()
        invariant
            i <= steps.len(),
            branches@.len() == i,
            forall|j: int|
                0 <= j < i ==> branches@[j]@ == semantics::branch(steps@[j]@, context@),
        decreases steps.len() - i,
    {
        let machine = Machine {
            frames: Vec::new(),
            pending: Pending::Step { step: steps[i].clone(), context: context.clone() },
        };
        assert(frame_list(machine.frames@) =~= Seq::empty());
        branches.push(machine);
        i += 1;
    }
    assert(machine_list(branches@) =~= semantics::branches(step_defs(steps@), context@));
    branches
}

/// Begins a run of the task `task_name` in `context`: the machine that is
/// about to look the task up.
pub fn run_task(task_name: &str, context: ExecutionContext) -> (machine: Machine)
    ensures
        machine@ == semantics::start(task_name@, context@),
{
    let machine = Machine {
        frames: Vec::new(),
        pending: Pending::Resolve { name: task_name.to_owned(), context },
    };
    assert(frame_list(machine.frames@) =~= Seq::empty());
    machine
}

impl Machine {
    /// The machine that `event` leaves behind. An event that does not answer
    /// what the machine is waiting for changes nothing.
    pub fn deliver(self, event: Event) -> (next: Machine)
        ensures
            next@ == semantics::deliver(self@, event@),
    {
        let Machine { frames, pending } = self;
        match pending {
            Pending::Resolve { name, context } => match event {
                Event::Resume => settle(frames, resolve_task(name, context)),
                _ => Machine { frames, pending: Pending::Resolve { name, context } },
            },
            Pending::Step { step, context } => match event {
                Event::Resume => pend(frames, execute_step_def(&step, context)),
                _ => Machine { frames, pending: Pending::Step { step, context } },
            },
            Pending::Advance => match event {
                Event::Resume => advance(frames),
                _ => Machine { frames, pending: Pending::Advance },
            },
            Pending::Command { command, dir, env } => match event {
                Event::Exited { code } => conclude(frames, command_result(command, code)),
                Event::SpawnFailed { cause } => failed(
                    ExecutionError::SpawnFailed { command, cause },
                ),
                _ => Machine { frames, pending: Pending::Command { command, dir, env } },
            },
            Pending::Probe { task, context } => match event {
                Event::Probed { found } => probed(frames, task, context, found),
                _ => Machine { frames, pending: Pending::Probe { task, context } },
            },
            Pending::Join { steps, context } => match event {
                Event::Joined { results } => conclude(frames, join_results(results)),
                _ => Machine { frames, pending: Pending::Join { steps, context } },
            },
            Pending::Finished { outcome } => Machine {
                frames,
                pending: Pending::Finished { outcome },
            },
        }
    }

    /// What the machine asks of its host.
    pub fn request(&self) -> (action: Action)
        ensures
            action@ == semantics::request(self@),
    {
        match &self.pending {
            Pending::Resolve { .. } => Action::Continue,
            Pending::Step { .. } => Action::Continue,
            Pending::Advance => Action::Continue,
            Pending::Command { command, dir, env } => Action::Run {
                command: command.clone(),
                dir: dir.clone(),
                env: env.clone(),
            },
            Pending::Probe { task, context } => Action::Probe {
                dir: context.dir.clone(),
                file: CONFIG_FILE.to_owned(),
            },
            Pending::Join { steps, context } => Action::Fork { branches: fork(steps, context) },
            Pending::Finished { outcome } => Action::Done {
                outcome: match outcome {
                    Ok(_) => Ok(()),
                    Err(e) => Err(e.clone()),
                },
            },
        }
    }

    /// Hands `event` to the machine and returns the machine it leaves behind
    /// with what that machine asks for next.
    pub fn step(self, event: Event) -> (next: (Machine, Action))
        ensures
            next.0@ == semantics::deliver(self@, event@),
            next.1@ == semantics::request(next.0@),
    {
        let machine = self.deliver(event);
        let action = machine.request();
        (machine, action)
    }
}

} // verus!
