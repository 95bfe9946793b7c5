use vstd::prelude::*;

verus! {

/// Every way a mutating operation can be refused.
#[derive(Copy, Clone, Debug, PartialEq, Eq, PartialOrd, Ord, Structural)]
pub enum ContractError {
    /// No task is stored under the given id.
    TaskNotFound,
    /// Work was already submitted for the task.
    AlreadyCompleted,
    /// Funds were requested before any work was submitted.
    NotCompleted,
    /// The task has already been paid.
    AlreadyPaid,
    /// The caller does not hold the role the operation needs.
    Unauthorized,
    /// A task amount must be strictly positive.
    InvalidAmount,
}

} // verus!
