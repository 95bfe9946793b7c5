use vstd::prelude::*;

use crate::error::ContractError;
use crate::principal::Principal;
use crate::store::{TaskCounter, TaskStore};
use crate::task::{fresh_task, release_step, status_label, submit_step, task_wf, Task, TaskView};

verus! {

/// The persistent state of the contract: the id counter and the stored tasks.
pub struct BountyView {
    pub count: nat,
    pub tasks: Map<u32, TaskView>,
}

/// The state before any task was created.
pub open spec fn empty_state() -> BountyView {
    BountyView { count: 0, tasks: Map::empty() }
}

/// The reachable states: ids `1..=count` are stored, each under its own id,
/// and every stored task is well formed.
pub open spec fn state_wf(s: BountyView) -> bool {
    &&& s.count <= u32::MAX
    &&& forall|id: u32| #[trigger] s.tasks.contains_key(id) <==> 1 <= id <= s.count
    &&& forall|id: u32| #[trigger] s.tasks.contains_key(id) ==> s.tasks[id].id == id && task_wf(s.tasks[id])
}

/// The new state and the result of `create_task(creator, title, amount)` on `s`.
pub open spec fn create_outcome(s: BountyView, creator: Seq<char>, title: Seq<char>, amount: i128)
    -> (BountyView, Result<u32, ContractError>)
{
    if amount <= 0 {
        (s, Err(ContractError::InvalidAmount))
    } else {
        let id = (s.count + 1) as u32;
        (
            BountyView { count: s.count + 1, tasks: s.tasks.insert(id, fresh_task(id, creator, title, amount)) },
            Ok(id),
        )
    }
}

/// The new state and the result of `submit_work(id, freelancer)` on `s`.
pub open spec fn submit_outcome(s: BountyView, id: u32, freelancer: Seq<char>)
    -> (BountyView, Result<bool, ContractError>)
{
    if !s.tasks.contains_key(id) {
        (s, Err(ContractError::TaskNotFound))
    } else {
        let (t, r) = submit_step(s.tasks[id], freelancer);
        if r is Ok {
            (BountyView { tasks: s.tasks.insert(id, t), ..s }, r)
        } else {
            (s, r)
        }
    }
}

/// The new state and the result of `release_funds(id, caller)` on `s`.
pub open spec fn release_outcome(s: BountyView, id: u32, caller: Seq<char>)
    -> (BountyView, Result<bool, ContractError>)
{
    if !s.tasks.contains_key(id) {
        (s, Err(ContractError::TaskNotFound))
    } else {
        let (t, r) = release_step(s.tasks[id], caller);
        if r is Ok {
            (BountyView { tasks: s.tasks.insert(id, t), ..s }, r)
        } else {
            (s, r)
        }
    }
}

/// What `get_task(id)` shows on `s`: the title and the status label, or nothing.
pub open spec fn query_outcome(s: BountyView, id: u32) -> Seq<Seq<char>> {
    if s.tasks.contains_key(id) {
        seq![s.tasks[id].title, status_label(s.tasks[id].status)]
    } else {
        Seq::empty()
    }
}

/// Checks the amount, draws the next id from `counter` and builds the new
/// pending task; a refused call leaves the counter as it was.
pub fn open_task(counter: &mut TaskCounter, creator: Principal, title: String, amount: i128) -> (r: Result<Task, ContractError>)
    requires
        old(counter)@ < u32::MAX,
    ensures
        amount <= 0 ==> final(counter)@ == old(counter)@ && r == Err::<Task, ContractError>(ContractError::InvalidAmount),
        amount > 0 ==> final(counter)@ == old(counter)@ + 1 && match r {
            Ok(t) => t@ == fresh_task((old(counter)@ + 1) as u32, creator@, title@, amount),
            Err(_) => false,
        },
{
    if amount <= 0 {
        return Err(ContractError::InvalidAmount);
    }
    let id = counter.next_id();
    Ok(Task::new(id, creator, title, amount))
}

/// The bounty contract: a task-id counter and a store of tasks.
pub struct BountyContract {
    counter: TaskCounter,
    store: TaskStore,
}

impl View for BountyContract {
    type V = BountyView;

    closed spec fn view(&self) -> BountyView {
        BountyView { count: self.counter@, tasks: self.store@ }
    }
}

impl BountyContract {
    /// Well-formedness of the contract's state.
    pub open spec fn wf(&self) -> bool {
        state_wf(self@)
    }

    /// A contract with no task.
    pub fn new() -> (r: BountyContract)
        ensures
            r@ == empty_state(),
            r.wf(),
    {
        BountyContract { counter: TaskCounter::new(), store: TaskStore::new() }
    }

    /// The number of tasks created so far, which is also the last id handed out.
    pub fn task_count(&self) -> (r: u32)
        requires
            self.wf(),
        ensures
            r == self@.count,
    {
        self.counter.current()
    }

    /// Posts a task with a locked `amount` and returns its id.
    pub fn create_task(&mut self, creator: Principal, title: String, amount: i128) -> (r: Result<u32, ContractError>)
        requires
            old(self).wf(),
            old(self)@.count < u32::MAX,
        ensures
            final(self).wf(),
            (final(self)@, r) == create_outcome(old(self)@, creator@, title@, amount),
    {
        match open_task(&mut self.counter, creator, title, amount) {
            Ok(task) => {
                let id = task.id;
                self.store.put(id, task);
                Ok(id)
            },
            Err(e) => Err(e),
        }
    }

    /// Records completed work on task `task_id`; the first submission wins.
    pub fn submit_work(&mut self, task_id: u32, freelancer: Principal) -> (r: Result<bool, ContractError>)
        requires
            old(self).wf(),
        ensures
            final(self).wf(),
            (final(self)@, r) == submit_outcome(old(self)@, task_id, freelancer@),
    {
        match self.store.take(task_id) {
            None => {
                assert(self@.tasks =~= old(self)@.tasks);
                Err(ContractError::TaskNotFound)
            },
            Some(mut task) => {
                let r = task.submit(freelancer);
                self.store.put(task_id, task);
                assert(self@.tasks =~= submit_outcome(old(self)@, task_id, freelancer@).0.tasks);
                r
            },
        }
    }

    /// Marks task `task_id` paid at the request of its creator, once its work is in.
    pub fn release_funds(&mut self, task_id: u32, creator: Principal) -> (r: Result<bool, ContractError>)
        requires
            old(self).wf(),
        ensures
            final(self).wf(),
            (final(self)@, r) == release_outcome(old(self)@, task_id, creator@),
    {
        match self.store.take(task_id) {
            None => {
                assert(self@.tasks =~= old(self)@.tasks);
                Err(ContractError::TaskNotFound)
            },
            Some(mut task) => {
                let r = task.release(&creator);
                self.store.put(task_id, task);
                assert(self@.tasks =~= release_outcome(old(self)@, task_id, creator@).0.tasks);
                r
            },
        }
    }

    /// The title and status label of task `task_id`, or an empty vector when
    /// no such task exists.
    pub fn get_task(&self, task_id: u32) -> (r: Vec<String>)
        ensures
            r@.len() == query_outcome(self@, task_id).len(),
            forall|i: int| 0 <= i < r@.len() ==> #[trigger] r@[i]@ == query_outcome(self@, task_id)[i],
    {
        match self.store.get(task_id) {
            Some(task) => {
                task.summary()
            },
            None => {
                Vec::new()
            },
        }
    }
}

} // verus!
