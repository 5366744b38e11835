use vstd::prelude::*;
use crate::errors::AppError;

verus! {

/// How one of the long-running activities (command listener, recurring
/// trigger) ended.
pub enum TaskExit {
    /// It stopped on request.
    Stopped,
    /// It returned an error.
    Failed(AppError),
    /// It ended abnormally, without a result.
    Panicked,
}

/// The process outcome once the first activity has ended: success only on a
/// graceful stop, its own error when it failed, `TaskPanicked` when it ended
/// abnormally.
pub fn process_outcome(exit: TaskExit) -> (r: Result<(), AppError>)
    ensures
        match exit {
            TaskExit::Stopped => r == Ok::<(), AppError>(()),
            TaskExit::Failed(e) => r == Err::<(), AppError>(e),
            TaskExit::Panicked => r == Err::<(), AppError>(AppError::TaskPanicked),
        },
{
    match exit {
        TaskExit::Stopped => Ok(()),
        TaskExit::Failed(e) => Err(e),
        TaskExit::Panicked => Err(AppError::TaskPanicked),
    }
}

} // verus!
