//! What holds of every run, proved from the definitions in
//! [`crate::semantics`]. The executable machine computes exactly those
//! definitions, so each law holds of it as well.

use vstd::prelude::*;
use crate::config::{DocumentModel, StepDefModel, TaskDefModel, TaskModel, CONFIG_FILE};
use crate::env::{merge_env, EnvModel};
use crate::error::{ErrorModel, OutcomeModel};
use crate::path::PathModel;
use crate::semantics::{
    advance, aggregate, branch, branches, deliver, document_path, exit_outcome, failed,
    failures_of, full_task_turn, pend, proceed, request, start, step_pending, work_dir,
    ActionModel, ContextModel, EventModel, FrameModel, MachineModel, PendingModel, ProbeModel,
};
use crate::text::Text;

verus! {

/// A task that is just a command asks for one process and no more: the
/// command, in the caller's directory and with the caller's environment,
/// both unchanged. How the process ends is how the run ends, and whatever is
/// reported after that changes nothing.
pub proof fn law_shorthand_runs_one_command(
    name: Text,
    context: ContextModel,
    command: Text,
    code: Option<int>,
    cause: Text,
    later: EventModel,
)
    requires
        context.document.contains_key(name),
        context.document[name] == TaskDefModel::Shorthand(command),
    ensures
        ({
            let running = deliver(start(name, context), EventModel::Resume);
            let ended = deliver(running, EventModel::Exited { code });
            &&& request(start(name, context)) == ActionModel::Continue
            &&& request(running) == (ActionModel::Run {
                command,
                dir: context.dir,
                env: context.env,
            })
            &&& request(ended) == (ActionModel::Done { outcome: exit_outcome(command, code) })
            &&& deliver(ended, later) == ended
            &&& request(deliver(running, EventModel::SpawnFailed { cause })) == (ActionModel::Done {
                outcome: Err(ErrorModel::SpawnFailed { command, cause }),
            })
        }),
{
}

/// A structured task with a command and neither steps nor a delegation asks
/// for that command, in its own directory resolved against the root of the
/// document where it names one and in the inherited directory where it names
/// none, with the inherited environment overlaid with its own.
pub proof fn law_command_task_directory_and_environment(
    name: Text,
    context: ContextModel,
    task: TaskModel,
)
    requires
        context.document.contains_key(name),
        context.document[name] == TaskDefModel::Full(task),
        task.steps is None,
        task.task is None,
        task.cmd is Some,
    ensures
        request(deliver(start(name, context), EventModel::Resume)) == (ActionModel::Run {
            command: task.cmd->0,
            dir: match task.dir {
                Some(dir) => context.root.join(dir),
                None => context.dir,
            },
            env: merge_env(context.env, task.env),
        }),
{
}

/// The merged environment holds every name the task sets, with the task's
/// value, every inherited name the task does not set, with the inherited
/// value, and no other name.
pub proof fn law_merged_environment(inherited: EnvModel, local: EnvModel, name: Text)
    ensures
        ({
            let merged = merge_env(inherited, Some(local));
            &&& merged.contains_key(name) <==> inherited.contains_key(name) || local.contains_key(
                name,
            )
            &&& local.contains_key(name) ==> merged[name] == local[name]
            &&& inherited.contains_key(name) && !local.contains_key(name) ==> merged[name]
                == inherited[name]
        }),
        merge_env(inherited, None) == inherited,
{
}

/// A task with steps runs its steps, whatever delegation or command it also
/// names: entering it opens its step list, exactly as entering the same task
/// without the delegation and the command does.
pub proof fn law_steps_win(name: Text, context: ContextModel, task: TaskModel)
    requires
        context.document.contains_key(name),
        context.document[name] == TaskDefModel::Full(task),
        task.steps is Some,
    ensures
        full_task_turn(task, context) == full_task_turn(
            TaskModel { task: None, cmd: None, ..task },
            context,
        ),
        deliver(start(name, context), EventModel::Resume) == (MachineModel {
            frames: seq![
                FrameModel {
                    steps: task.steps->0,
                    next: 0,
                    context: ContextModel {
                        dir: work_dir(context, task.dir),
                        env: merge_env(context.env, task.env),
                        ..context
                    },
                },
            ],
            pending: PendingModel::Advance,
        }),
{
    let opened = FrameModel {
        steps: task.steps->0,
        next: 0,
        context: ContextModel {
            dir: work_dir(context, task.dir),
            env: merge_env(context.env, task.env),
            ..context
        },
    };
    assert(Seq::<FrameModel>::empty().push(opened) =~= seq![opened]);
}

/// A delegation without steps before it, out of a task that names no
/// directory, stays in the document in scope and asks nothing of the host.
pub proof fn law_delegation_without_directory(
    name: Text,
    context: ContextModel,
    task: TaskModel,
    target: Text,
)
    requires
        context.document.contains_key(name),
        context.document[name] == TaskDefModel::Full(task),
        task.steps is None,
        task.task == Some(target),
        task.dir is None,
    ensures
        deliver(start(name, context), EventModel::Resume) == start(
            target,
            ContextModel { env: merge_env(context.env, task.env), ..context },
        ),
{
}

/// A delegation out of a task that names a directory first asks for a
/// definition file in that directory. If one is found, the target is looked
/// up in it, with the directory as working directory and as root; if none
/// is found, the target is looked up in the document in scope, with the
/// directory as working directory. Either way the merged environment is
/// handed on. A file that is there and cannot be loaded ends the run.
pub proof fn law_delegation_probes_directory(
    name: Text,
    context: ContextModel,
    task: TaskModel,
    dir: Text,
    target: Text,
    nested: DocumentModel,
    cause: Text,
)
    requires
        context.document.contains_key(name),
        context.document[name] == TaskDefModel::Full(task),
        task.steps is None,
        task.task == Some(target),
        task.dir == Some(dir),
    ensures
        ({
            let sub = context.root.join(dir);
            let env = merge_env(context.env, task.env);
            let probing = deliver(start(name, context), EventModel::Resume);
            &&& request(probing) == (ActionModel::Probe { dir: sub, file: CONFIG_FILE@ })
            &&& deliver(
                probing,
                EventModel::Probed { found: ProbeModel::Loaded { document: nested } },
            ) == start(target, ContextModel { dir: sub, env, root: sub, document: nested })
            &&& deliver(probing, EventModel::Probed { found: ProbeModel::Absent }) == start(
                target,
                ContextModel { dir: sub, env, root: context.root, document: context.document },
            )
            &&& deliver(probing, EventModel::Probed { found: ProbeModel::Failed { cause } })
                == failed(ErrorModel::DocumentLoadFailed { path: document_path(sub), cause })
        }),
{
}

/// A step that delegates goes by the same rule: with a directory of its own
/// it probes that directory, without one it stays in the document in scope.
pub proof fn law_step_delegation(step: StepDefModel, context: ContextModel, target: Text)
    requires
        step.task == Some(target),
    ensures
        ({
            let taken = deliver(branch(step, context), EventModel::Resume);
            match step.dir {
                Some(dir) => taken.pending == (PendingModel::Probe {
                    task: target,
                    context: ContextModel { dir: context.root.join(dir), ..context },
                }),
                None => taken == start(target, context),
            }
        }),
{
}

/// A task looked up where the document has no such task ends the run with
/// the name and the path of the document's file.
pub proof fn law_unknown_task(name: Text, context: ContextModel)
    requires
        !context.document.contains_key(name),
    ensures
        deliver(start(name, context), EventModel::Resume) == failed(
            ErrorModel::TaskNotFound { name, document: document_path(context.root) },
        ),
{
}

/// A structured task that names no command, no delegation and no steps fails:
/// the run ends with `NoAction` and never with success. So does a step that
/// names neither a command nor a task.
pub proof fn law_missing_action(
    name: Text,
    context: ContextModel,
    task: TaskModel,
    step: StepDefModel,
)
    requires
        context.document.contains_key(name),
        context.document[name] == TaskDefModel::Full(task),
        task.steps is None,
        task.task is None,
        task.cmd is None,
        step.task is None,
        step.cmd is None,
    ensures
        request(deliver(start(name, context), EventModel::Resume)) == (ActionModel::Done {
            outcome: Err(ErrorModel::NoAction),
        }),
        request(deliver(branch(step, context), EventModel::Resume)) == (ActionModel::Done {
            outcome: Err(ErrorModel::NoAction),
        }),
{
}

/// The failures of a parallel group are the failed results, each once, in
/// the order of the group.
pub proof fn law_failures_in_order(results: Seq<OutcomeModel>)
    ensures
        failures_of(results) == results.filter(|r: OutcomeModel| r is Err).map_values(
            |r: OutcomeModel| r->Err_0,
        ),
    decreases results.len(),
{
    let is_failure = |r: OutcomeModel| r is Err;
    let error_of = |r: OutcomeModel| r->Err_0;
    if results.len() == 0 {
        assert(results.filter(is_failure) =~= Seq::empty());
        assert(failures_of(results) =~= results.filter(is_failure).map_values(error_of));
    } else {
        let rest = results.drop_first();
        law_failures_in_order(rest);
        assert(results =~= seq![results.first()] + rest);
        Seq::filter_distributes_over_add(seq![results.first()], rest, is_failure);
        assert(seq![results.first()].filter(is_failure) =~= if results.first() is Err {
            seq![results.first()]
        } else {
            Seq::empty()
        }) by {
            reveal_with_fuel(Seq::filter, 2);
            assert(seq![results.first()].drop_last() =~= Seq::empty());
        }
        assert(failures_of(results) =~= results.filter(is_failure).map_values(error_of));
    }
}

/// A parallel group hands out every one of its steps, each as a run of its
/// own in the group's context, and succeeds exactly if every step did. When
/// it fails, it fails with the list of all failures and with nothing else.
pub proof fn law_parallel_group(
    frames: Seq<FrameModel>,
    steps: Seq<StepDefModel>,
    context: ContextModel,
    results: Seq<OutcomeModel>,
)
    ensures
        ({
            let waiting = MachineModel { frames, pending: PendingModel::Join { steps, context } };
            &&& request(waiting) == (ActionModel::Fork { branches: branches(steps, context) })
            &&& branches(steps, context).len() == steps.len()
            &&& forall|i: int|
                0 <= i < steps.len() ==> (#[trigger] branches(steps, context)[i]) == branch(
                    steps[i],
                    context,
                )
            &&& aggregate(results) is Ok <==> forall|i: int|
                0 <= i < results.len() ==> (#[trigger] results[i]) is Ok
            &&& aggregate(results) is Err ==> aggregate(results) == Err::<(), ErrorModel>(
                ErrorModel::ParallelFailure { failures: failures_of(results) },
            ) && deliver(waiting, EventModel::Joined { results }) == failed(
                ErrorModel::ParallelFailure { failures: failures_of(results) },
            )
            &&& aggregate(results) is Ok ==> deliver(waiting, EventModel::Joined { results })
                == proceed(frames)
        }),
{
    lemma_no_failures(results);
}

/// No failure is listed exactly if every result is a success.
proof fn lemma_no_failures(results: Seq<OutcomeModel>)
    ensures
        failures_of(results).len() == 0 <==> forall|i: int|
            0 <= i < results.len() ==> (#[trigger] results[i]) is Ok,
    decreases results.len(),
{
    if results.len() > 0 {
        let rest = results.drop_first();
        lemma_no_failures(rest);
        if failures_of(results).len() == 0 {
            assert forall|i: int| 0 <= i < results.len() implies (#[trigger] results[i]) is Ok by {
                if i > 0 {
                    assert(rest[i - 1] is Ok);
                }
            }
        }
        if forall|i: int| 0 <= i < results.len() ==> (#[trigger] results[i]) is Ok {
            assert(results[0] is Ok);
            assert forall|i: int| 0 <= i < rest.len() implies (#[trigger] rest[i]) is Ok by {
                assert(results[i + 1] is Ok);
            }
        }
    }
}

/// The positions of a step list are taken strictly in order. While a process
/// is awaited nothing but its end moves the machine; when it has succeeded,
/// the innermost step list goes on with its next position, and when it has
/// failed, the run is over and no later step is taken.
pub proof fn law_steps_in_order(
    frames: Seq<FrameModel>,
    command: Text,
    dir: PathModel,
    env: EnvModel,
    code: int,
    other: EventModel,
)
    requires
        !(other is Exited),
        !(other is SpawnFailed),
    ensures
        ({
            let waiting = MachineModel {
                frames,
                pending: PendingModel::Command { command, dir, env },
            };
            &&& deliver(waiting, other) == waiting
            &&& deliver(waiting, EventModel::Exited { code: Some(0) }) == proceed(frames)
            &&& frames.len() > 0 ==> deliver(proceed(frames), EventModel::Resume) == advance(frames)
            &&& code != 0 ==> deliver(waiting, EventModel::Exited { code: Some(code) }) == failed(
                ErrorModel::CommandFailed { command, exit_code: code },
            )
        }),
{
}

/// Going on in a step list takes the step at the list's position and moves
/// the position past it; the list itself and its context stay as they are.
pub proof fn law_advance_takes_next_step(frames: Seq<FrameModel>)
    requires
        frames.len() > 0,
        0 <= frames.last().next < frames.last().steps.len(),
    ensures
        ({
            let top = frames.last();
            let after = advance(frames);
            &&& !(after.pending is Finished) ==> after.frames == frames.update(
                frames.len() - 1,
                FrameModel { next: top.next + 1, ..top },
            )
            &&& after == pend(
                frames.update(frames.len() - 1, FrameModel { next: top.next + 1, ..top }),
                step_pending(top.steps[top.next], top.context),
            )
        }),
{
}

/// A run that is over stays over: it asks for nothing more and no event
/// changes its result.
pub proof fn law_finished_is_final(machine: MachineModel, event: EventModel)
    requires
        machine.pending is Finished,
    ensures
        deliver(machine, event) == machine,
        request(machine) == (ActionModel::Done { outcome: machine.pending->Finished_outcome }),
{
}

} // verus!
