//! What can go wrong in a run.

use vstd::prelude::*;
use crate::path::{DirPath, PathModel};
use crate::text::Text;

verus! {

/// Why a run failed. Every error ends the call path that raised it; nothing
/// is retried.
#[derive(Debug, PartialEq, Eq)]
pub enum ExecutionError {
    /// The task asked for, or delegated to, is not in the document in scope.
    TaskNotFound { name: String, document: DirPath },
    /// A task or a step names no command, no task and no steps.
    NoAction,
    /// The host could not start the process.
    SpawnFailed { command: String, cause: String },
    /// The process ran and did not exit with success.
    CommandFailed { command: String, exit_code: i32 },
    /// The steps of a parallel group that failed, in the order of the group.
    ParallelFailure { failures: Vec<ExecutionError> },
    /// A definition file is there and could not be read or understood.
    DocumentLoadFailed { path: DirPath, cause: String },
}

/// The mathematical value of an [`ExecutionError`].
pub enum ErrorModel {
    TaskNotFound { name: Text, document: PathModel },
    NoAction,
    SpawnFailed { command: Text, cause: Text },
    CommandFailed { command: Text, exit_code: int },
    ParallelFailure { failures: Seq<ErrorModel> },
    DocumentLoadFailed { path: PathModel, cause: Text },
}

/// The mathematical value of the result of a run.
pub type OutcomeModel = Result<(), ErrorModel>;

impl View for ExecutionError {
    type V = ErrorModel;

    open spec fn view(&self) -> ErrorModel
        decreases self,
    {
        match self {
            ExecutionError::TaskNotFound { name, document } => ErrorModel::TaskNotFound {
                name: name@,
                document: document@,
            },
            ExecutionError::NoAction => ErrorModel::NoAction,
            ExecutionError::SpawnFailed { command, cause } => ErrorModel::SpawnFailed {
                command: command@,
                cause: cause@,
            },
            ExecutionError::CommandFailed { command, exit_code } => ErrorModel::CommandFailed {
                command: command@,
                exit_code: *exit_code as int,
            },
            ExecutionError::ParallelFailure { failures } => ErrorModel::ParallelFailure {
                failures: Seq::new(
                    failures.len() as nat,
                    |i: int|
                        if 0 <= i < failures.len() {
                            failures[i].view()
                        } else {
                            ErrorModel::NoAction
                        },
                ),
            },
            ExecutionError::DocumentLoadFailed { path, cause } => ErrorModel::DocumentLoadFailed {
                path: path@,
                cause: cause@,
            },
        }
    }
}

/// The values of a list of errors.
pub open spec fn error_list(v: Seq<ExecutionError>) -> Seq<ErrorModel> {
    v.map_values(|e: ExecutionError| e@)
}

/// The value of the result of a run.
pub open spec fn outcome_model(outcome: Result<(), ExecutionError>) -> OutcomeModel {
    match outcome {
        Ok(_) => Ok(()),
        Err(e) => Err(e@),
    }
}

/// The values of a list of results.
pub open spec fn outcome_list(v: Seq<Result<(), ExecutionError>>) -> Seq<OutcomeModel> {
    v.map_values(|r: Result<(), ExecutionError>| outcome_model(r))
}

/// The value of an aggregate is the values of its failures.
pub proof fn lemma_parallel_failure_view(failures: Vec<ExecutionError>)
    ensures
        (ExecutionError::ParallelFailure { failures })@ == (ErrorModel::ParallelFailure {
            failures: error_list(failures@),
        }),
{
    let e = ExecutionError::ParallelFailure { failures };
    assert(e@->ParallelFailure_failures =~= error_list(failures@));
}

impl Clone for ExecutionError {
    fn clone(&self) -> (copy: ExecutionError)
        ensures
            copy@ == self@,
        decreases self,
    {
        match self {
            ExecutionError::TaskNotFound { name, document } => ExecutionError::TaskNotFound {
                name: name.clone(),
                document: document.clone(),
            },
            ExecutionError::NoAction => ExecutionError::NoAction,
            ExecutionError::SpawnFailed { command, cause } => ExecutionError::SpawnFailed {
                command: command.clone(),
                cause: cause.clone(),
            },
            ExecutionError::CommandFailed { command, exit_code } => ExecutionError::CommandFailed {
                command: command.clone(),
                exit_code: *exit_code,
            },
            ExecutionError::ParallelFailure { failures } => {
                let mut copies: Vec<ExecutionError> = Vec::new();
                let mut i: usize = 0;
                while i < failures.len()
                    invariant
                        i <= failures.len(),
                        copies@.len() == i,
                        *self == (ExecutionError::ParallelFailure { failures: *failures }),
                        forall|j: int| 0 <= j < i ==> copies@[j]@ == failures@[j]@,
                    decreases failures.len() - i,
                {
                    assert(self->ParallelFailure_failures == *failures);
                    assert(decreases_to!(*self => self->ParallelFailure_failures));
                    copies.push(failures[i].clone());
                    i += 1;
                }
                proof {
                    lemma_parallel_failure_view(*failures);
                    lemma_parallel_failure_view(copies);
                    assert(error_list(copies@) =~= error_list(failures@));
                }
                ExecutionError::ParallelFailure { failures: copies }
            },
            ExecutionError::DocumentLoadFailed { path, cause } => ExecutionError::DocumentLoadFailed {
                path: path.clone(),
                cause: cause.clone(),
            },
        }
    }
}

} // verus!
