use vstd::prelude::*;

use crate::error::ContractError;
use crate::principal::Principal;

verus! {

/// Where a task stands in its lifecycle: `Pending`, then `Completed`, then `Paid`.
#[derive(Copy, Clone, Debug, PartialEq, Eq, Structural)]
pub enum TaskStatus {
    Pending,
    Completed,
    Paid,
}

/// A posted bounty task.
pub struct Task {
    pub id: u32,
    pub creator: Principal,
    pub freelancer: Principal,
    pub title: String,
    pub amount: i128,
    pub status: TaskStatus,
}

/// The mathematical content of a task.
pub struct TaskView {
    pub id: u32,
    pub creator: Seq<char>,
    pub freelancer: Seq<char>,
    pub title: Seq<char>,
    pub amount: i128,
    pub status: TaskStatus,
}

impl View for Task {
    type V = TaskView;

    open spec fn view(&self) -> TaskView {
        TaskView {
            id: self.id,
            creator: self.creator@,
            freelancer: self.freelancer@,
            title: self.title@,
            amount: self.amount,
            status: self.status,
        }
    }
}

/// The task that creation stores: the creator also stands as placeholder freelancer.
pub open spec fn fresh_task(id: u32, creator: Seq<char>, title: Seq<char>, amount: i128) -> TaskView {
    TaskView { id, creator, freelancer: creator, title, amount, status: TaskStatus::Pending }
}

/// The result of submitting work on `t` as `freelancer`.
pub open spec fn submit_step(t: TaskView, freelancer: Seq<char>) -> (TaskView, Result<bool, ContractError>) {
    if t.status == TaskStatus::Pending {
        (TaskView { freelancer, status: TaskStatus::Completed, ..t }, Ok(true))
    } else {
        (t, Err(ContractError::AlreadyCompleted))
    }
}

/// The result of `caller` asking to release the funds of `t`.
pub open spec fn release_step(t: TaskView, caller: Seq<char>) -> (TaskView, Result<bool, ContractError>) {
    if t.creator != caller {
        (t, Err(ContractError::Unauthorized))
    } else if t.status == TaskStatus::Pending {
        (t, Err(ContractError::NotCompleted))
    } else if t.status == TaskStatus::Paid {
        (t, Err(ContractError::AlreadyPaid))
    } else {
        (TaskView { status: TaskStatus::Paid, ..t }, Ok(true))
    }
}

/// The label that queries show for a status.
pub open spec fn status_label(s: TaskStatus) -> Seq<char> {
    match s {
        TaskStatus::Paid => "paid"@,
        TaskStatus::Completed => "completed"@,
        TaskStatus::Pending => "pending"@,
    }
}

/// The well-formed tasks: a positive amount, and no freelancer recorded before a submission.
pub open spec fn task_wf(t: TaskView) -> bool {
    &&& t.amount > 0
    &&& t.status == TaskStatus::Pending ==> t.freelancer == t.creator
}

impl TaskStatus {
    /// The status stored as two flags: work submitted, payment released.
    pub fn from_flags(completed: bool, paid: bool) -> (r: TaskStatus)
        ensures
            r == (if paid {
                TaskStatus::Paid
            } else if completed {
                TaskStatus::Completed
            } else {
                TaskStatus::Pending
            }),
    {
        if paid {
            TaskStatus::Paid
        } else if completed {
            TaskStatus::Completed
        } else {
            TaskStatus::Pending
        }
    }

    /// Whether work has been submitted.
    pub fn is_completed(&self) -> (r: bool)
        ensures
            r == (*self != TaskStatus::Pending),
    {
        !matches!(self, TaskStatus::Pending)
    }

    /// Whether the payment has been released.
    pub fn is_paid(&self) -> (r: bool)
        ensures
            r == (*self == TaskStatus::Paid),
    {
        matches!(self, TaskStatus::Paid)
    }

    /// The label shown for this status.
    pub fn label(&self) -> (r: String)
        ensures
            r@ == status_label(*self),
    {
        match self {
            TaskStatus::Paid => String::from_str("paid"),
            TaskStatus::Completed => String::from_str("completed"),
            TaskStatus::Pending => String::from_str("pending"),
        }
    }
}

impl Task {
    /// A pending task with `creator` as both creator and placeholder freelancer.
    pub fn new(id: u32, creator: Principal, title: String, amount: i128) -> (r: Task)
        ensures
            r@ == fresh_task(id, creator@, title@, amount),
    {
        let freelancer = creator.duplicate();
        Task { id, creator, freelancer, title, amount, status: TaskStatus::Pending }
    }

    /// Records a submission by `freelancer`; only a pending task accepts one.
    pub fn submit(&mut self, freelancer: Principal) -> (r: Result<bool, ContractError>)
        ensures
            (final(self)@, r) == submit_step(old(self)@, freelancer@),
    {
        match self.status {
            TaskStatus::Pending => {
                self.freelancer = freelancer;
                self.status = TaskStatus::Completed;
                Ok(true)
            },
            _ => Err(ContractError::AlreadyCompleted),
        }
    }

    /// Marks the task paid at the request of `caller`, who must be its creator.
    pub fn release(&mut self, caller: &Principal) -> (r: Result<bool, ContractError>)
        ensures
            (final(self)@, r) == release_step(old(self)@, caller@),
    {
        if !(self.creator == *caller) {
            return Err(ContractError::Unauthorized);
        }
        match self.status {
            TaskStatus::Pending => Err(ContractError::NotCompleted),
            TaskStatus::Paid => Err(ContractError::AlreadyPaid),
            TaskStatus::Completed => {
                self.status = TaskStatus::Paid;
                Ok(true)
            },
        }
    }

    /// The title and the status label of the task.
    pub fn summary(&self) -> (r: Vec<String>)
        ensures
            r@.len() == 2,
            r@[0]@ == self.title@,
            r@[1]@ == status_label(self.status),
    {
        let mut r: Vec<String> = Vec::new();
        r.push(self.title.clone());
        r.push(self.status.label());
        r
    }
}

} // verus!
