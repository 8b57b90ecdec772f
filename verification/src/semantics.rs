//! What a run means, stated over the mathematical values of documents,
//! contexts and errors.
//!
//! A run is a machine: a stack of step lists in progress and the one thing it
//! is about to do or is waiting for. [`deliver`] gives the machine that an
//! event leaves behind, [`request`] what a machine asks of its host. The
//! executable machine in [`crate::runner`] is proved to compute exactly these.

use vstd::prelude::*;
use crate::config::{DocumentModel, StepDefModel, StepModel, TaskDefModel, TaskModel, CONFIG_FILE};
use crate::env::{merge_env, EnvModel};
use crate::error::{ErrorModel, OutcomeModel};
use crate::path::PathModel;
use crate::text::Text;

verus! {

/// Where and with what a task runs: the directory used when the task names
/// none, the environment it inherits, and the document in scope with the
/// directory that document is rooted at.
pub struct ContextModel {
    pub dir: PathModel,
    pub env: EnvModel,
    pub root: PathModel,
    pub document: DocumentModel,
}

/// A step list in progress: `next` is the position of the step to take next.
pub struct FrameModel {
    pub steps: Seq<StepModel>,
    pub next: int,
    pub context: ContextModel,
}

/// What a machine is about to do, or is waiting for.
pub enum PendingModel {
    /// A task is to be looked up and entered.
    Resolve { name: Text, context: ContextModel },
    /// A single step is to be taken.
    Step { step: StepDefModel, context: ContextModel },
    /// The innermost step list is to go on.
    Advance,
    /// A process was asked for; its exit is awaited.
    Command { command: Text, dir: PathModel, env: EnvModel },
    /// A definition file was asked for in `context.dir`; `task` is delegated
    /// to once it is known whether there is one.
    Probe { task: Text, context: ContextModel },
    /// The steps of a parallel group were handed out; their results are
    /// awaited.
    Join { steps: Seq<StepDefModel>, context: ContextModel },
    /// The run is over.
    Finished { outcome: OutcomeModel },
}

/// A run at one moment.
pub struct MachineModel {
    pub frames: Seq<FrameModel>,
    pub pending: PendingModel,
}

/// What the host found where a definition file was asked for.
pub enum ProbeModel {
    /// No such file.
    Absent,
    /// The file, read and understood.
    Loaded { document: DocumentModel },
    /// A file that could not be read or understood.
    Failed { cause: Text },
}

/// What the host reports back.
pub enum EventModel {
    /// Nothing was asked for; the machine may go on.
    Resume,
    /// The process ran and exited, with a code unless a signal ended it.
    Exited { code: Option<int> },
    /// The process could not be started.
    SpawnFailed { cause: Text },
    /// The definition file was looked for.
    Probed { found: ProbeModel },
    /// Every step of the group has finished; the results are in the order of
    /// the group.
    Joined { results: Seq<OutcomeModel> },
}

/// What a machine asks of its host.
pub enum ActionModel {
    /// Nothing: report `Resume`.
    Continue,
    /// Run `command` through the shell in `dir`, with `env` laid over the
    /// host's own environment.
    Run { command: Text, dir: PathModel, env: EnvModel },
    /// Look for the file `file` in `dir`, and load it if it is there.
    Probe { dir: PathModel, file: Text },
    /// Run every branch to its end, all at once, and report all results.
    Fork { branches: Seq<MachineModel> },
    /// The run is over.
    Done { outcome: OutcomeModel },
}

/// The one action of a task or a step.
pub enum Choice {
    Steps { steps: Seq<StepModel> },
    Delegate { task: Text },
    Command { command: Text },
    Nothing,
}

/// Which action wins: steps before a delegation, a delegation before a
/// command. The rule is the same for tasks and for steps (which have no
/// steps of their own).
pub open spec fn choose_action(
    steps: Option<Seq<StepModel>>,
    task: Option<Text>,
    cmd: Option<Text>,
) -> Choice {
    if steps is Some {
        Choice::Steps { steps: steps->0 }
    } else if task is Some {
        Choice::Delegate { task: task->0 }
    } else if cmd is Some {
        Choice::Command { command: cmd->0 }
    } else {
        Choice::Nothing
    }
}

/// The directory to work in: `dir` resolved against the document's root where
/// one is named, else the inherited directory.
pub open spec fn work_dir(context: ContextModel, dir: Option<Text>) -> PathModel {
    match dir {
        Some(d) => context.root.join(d),
        None => context.dir,
    }
}

/// The definition file of the document rooted at `root`.
pub open spec fn document_path(root: PathModel) -> PathModel {
    root.join(CONFIG_FILE@)
}

/// A delegation to `task`: where the delegating task or step named a
/// directory, that directory is first probed for a document of its own.
pub open spec fn delegate(task: Text, probe: bool, context: ContextModel) -> PendingModel {
    if probe {
        PendingModel::Probe { task, context }
    } else {
        PendingModel::Resolve { name: task, context }
    }
}

/// What taking the single step `step` comes to.
pub open spec fn step_def_pending(step: StepDefModel, context: ContextModel) -> PendingModel {
    let dir = work_dir(context, step.dir);
    match choose_action(None, step.task, step.cmd) {
        Choice::Delegate { task } => delegate(
            task,
            step.dir is Some,
            ContextModel { dir, ..context },
        ),
        Choice::Command { command } => PendingModel::Command { command, dir, env: context.env },
        _ => PendingModel::Finished { outcome: Err(ErrorModel::NoAction) },
    }
}

/// What taking one position of a step list comes to.
pub open spec fn step_pending(step: StepModel, context: ContextModel) -> PendingModel {
    match step {
        StepModel::Simple(def) => step_def_pending(def, context),
        StepModel::Parallel { parallel } => PendingModel::Join { steps: parallel, context },
    }
}

/// How a machine goes on once a task is looked at: into a step list, or to
/// something pending.
pub enum Turn {
    Enter { frame: FrameModel },
    Pend { pending: PendingModel },
}

/// What entering the structured task `task` comes to.
pub open spec fn full_task_turn(task: TaskModel, context: ContextModel) -> Turn {
    let dir = work_dir(context, task.dir);
    let env = merge_env(context.env, task.env);
    let inner = ContextModel { dir, env, ..context };
    match choose_action(task.steps, task.task, task.cmd) {
        Choice::Steps { steps } => Turn::Enter {
            frame: FrameModel { steps, next: 0, context: inner },
        },
        Choice::Delegate { task: target } => Turn::Pend {
            pending: delegate(target, task.dir is Some, inner),
        },
        Choice::Command { command } => Turn::Pend {
            pending: PendingModel::Command { command, dir, env },
        },
        Choice::Nothing => Turn::Pend {
            pending: PendingModel::Finished { outcome: Err(ErrorModel::NoAction) },
        },
    }
}

/// What entering a task of the definition `def` comes to.
pub open spec fn task_def_turn(def: TaskDefModel, context: ContextModel) -> Turn {
    match def {
        TaskDefModel::Shorthand(command) => Turn::Pend {
            pending: PendingModel::Command { command, dir: context.dir, env: context.env },
        },
        TaskDefModel::Full(task) => full_task_turn(task, context),
    }
}

/// What running the task `name` comes to.
pub open spec fn task_turn(name: Text, context: ContextModel) -> Turn {
    if context.document.contains_key(name) {
        task_def_turn(context.document[name], context)
    } else {
        Turn::Pend {
            pending: PendingModel::Finished {
                outcome: Err(
                    ErrorModel::TaskNotFound { name, document: document_path(context.root) },
                ),
            },
        }
    }
}

/// The result of a process: success on exit code 0, else a failure that
/// holds the command and the code; a process that ended without a code
/// counts as code 1.
pub open spec fn exit_outcome(command: Text, code: Option<int>) -> OutcomeModel {
    match code {
        Some(c) => if c == 0 {
            Ok(())
        } else {
            Err(ErrorModel::CommandFailed { command, exit_code: c })
        },
        None => Err(ErrorModel::CommandFailed { command, exit_code: 1 }),
    }
}

/// The failures among `results`, in their order.
pub open spec fn failures_of(results: Seq<OutcomeModel>) -> Seq<ErrorModel>
    decreases results.len(),
{
    if results.len() == 0 {
        Seq::empty()
    } else {
        match results.first() {
            Ok(_) => failures_of(results.drop_first()),
            Err(e) => seq![e] + failures_of(results.drop_first()),
        }
    }
}

/// The result of a parallel group: success if no step failed, else one
/// failure that lists every failure of a step.
pub open spec fn aggregate(results: Seq<OutcomeModel>) -> OutcomeModel {
    let failures = failures_of(results);
    if failures.len() == 0 {
        Ok(())
    } else {
        Err(ErrorModel::ParallelFailure { failures })
    }
}

/// The machine that has failed with `error`.
pub open spec fn failed(error: ErrorModel) -> MachineModel {
    MachineModel { frames: Seq::empty(), pending: PendingModel::Finished { outcome: Err(error) } }
}

/// The machine after something succeeded: the innermost step list goes on,
/// and where none is left the run is over.
pub open spec fn proceed(frames: Seq<FrameModel>) -> MachineModel {
    if frames.len() == 0 {
        MachineModel { frames, pending: PendingModel::Finished { outcome: Ok(()) } }
    } else {
        MachineModel { frames, pending: PendingModel::Advance }
    }
}

/// The machine after something ended with `outcome`: the first failure ends
/// the run.
pub open spec fn conclude(frames: Seq<FrameModel>, outcome: OutcomeModel) -> MachineModel {
    match outcome {
        Ok(_) => proceed(frames),
        Err(e) => failed(e),
    }
}

/// The machine with `pending` as the thing to do next.
pub open spec fn pend(frames: Seq<FrameModel>, pending: PendingModel) -> MachineModel {
    match pending {
        PendingModel::Finished { outcome } => conclude(frames, outcome),
        _ => MachineModel { frames, pending },
    }
}

/// The machine after a task was looked at.
pub open spec fn settle(frames: Seq<FrameModel>, turn: Turn) -> MachineModel {
    match turn {
        Turn::Enter { frame } => MachineModel {
            frames: frames.push(frame),
            pending: PendingModel::Advance,
        },
        Turn::Pend { pending } => pend(frames, pending),
    }
}

/// The machine after its innermost step list went on by one position: a list
/// at its end is left, otherwise its next step is taken.
pub open spec fn advance(frames: Seq<FrameModel>) -> MachineModel {
    if frames.len() == 0 {
        proceed(frames)
    } else {
        let top = frames.last();
        if 0 <= top.next < top.steps.len() {
            pend(
                frames.update(frames.len() - 1, FrameModel { next: top.next + 1, ..top }),
                step_pending(top.steps[top.next], top.context),
            )
        } else {
            proceed(frames.drop_last())
        }
    }
}

/// The machine after the probe for a nested document was answered. A document
/// that was found takes over the scope, rooted at the probed directory; the
/// environment is kept. Where none was found the delegation stays within the
/// document in scope.
pub open spec fn probed(
    frames: Seq<FrameModel>,
    task: Text,
    context: ContextModel,
    found: ProbeModel,
) -> MachineModel {
    match found {
        ProbeModel::Absent => MachineModel {
            frames,
            pending: PendingModel::Resolve { name: task, context },
        },
        ProbeModel::Loaded { document } => MachineModel {
            frames,
            pending: PendingModel::Resolve {
                name: task,
                context: ContextModel {
                    dir: context.dir,
                    env: context.env,
                    root: context.dir,
                    document,
                },
            },
        },
        ProbeModel::Failed { cause } => failed(
            ErrorModel::DocumentLoadFailed { path: document_path(context.dir), cause },
        ),
    }
}

/// The machine that `event` leaves behind. An event that does not answer
/// what the machine is waiting for changes nothing.
pub open spec fn deliver(machine: MachineModel, event: EventModel) -> MachineModel {
    let frames = machine.frames;
    match machine.pending {
        PendingModel::Resolve { name, context } => match event {
            EventModel::Resume => settle(frames, task_turn(name, context)),
            _ => machine,
        },
        PendingModel::Step { step, context } => match event {
            EventModel::Resume => pend(frames, step_def_pending(step, context)),
            _ => machine,
        },
        PendingModel::Advance => match event {
            EventModel::Resume => advance(frames),
            _ => machine,
        },
        PendingModel::Command { command, dir, env } => match event {
            EventModel::Exited { code } => conclude(frames, exit_outcome(command, code)),
            EventModel::SpawnFailed { cause } => failed(ErrorModel::SpawnFailed { command, cause }),
            _ => machine,
        },
        PendingModel::Probe { task, context } => match event {
            EventModel::Probed { found } => probed(frames, task, context, found),
            _ => machine,
        },
        PendingModel::Join { steps, context } => match event {
            EventModel::Joined { results } => conclude(frames, aggregate(results)),
            _ => machine,
        },
        PendingModel::Finished { outcome } => machine,
    }
}

/// The machine that runs the single step `step` of a parallel group.
pub open spec fn branch(step: StepDefModel, context: ContextModel) -> MachineModel {
    MachineModel { frames: Seq::empty(), pending: PendingModel::Step { step, context } }
}

/// The machines of a parallel group, one for each step, in the group's order.
pub open spec fn branches(steps: Seq<StepDefModel>, context: ContextModel) -> Seq<MachineModel> {
    Seq::new(steps.len(), |i: int| branch(steps[i], context))
}

/// What a machine asks of its host.
pub open spec fn request(machine: MachineModel) -> ActionModel {
    match machine.pending {
        PendingModel::Resolve { .. } => ActionModel::Continue,
        PendingModel::Step { .. } => ActionModel::Continue,
        PendingModel::Advance => ActionModel::Continue,
        PendingModel::Command { command, dir, env } => ActionModel::Run { command, dir, env },
        PendingModel::Probe { task, context } => ActionModel::Probe {
            dir: context.dir,
            file: CONFIG_FILE@,
        },
        PendingModel::Join { steps, context } => ActionModel::Fork {
            branches: branches(steps, context),
        },
        PendingModel::Finished { outcome } => ActionModel::Done { outcome },
    }
}

/// The machine that is about to run the task `name`.
pub open spec fn start(name: Text, context: ContextModel) -> MachineModel {
    MachineModel { frames: Seq::empty(), pending: PendingModel::Resolve { name, context } }
}

} // verus!
