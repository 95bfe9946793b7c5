use std::collections::HashMap;
use vstd::prelude::*;
use vstd::std_specs::hash::*;

use crate::task::{Task, TaskView};

verus! {

broadcast use {
    axiom_u32_obeys_hash_table_key_model,
    axiom_random_state_builds_valid_hashers,
    axiom_deref_key_removed,
    axiom_maps_deref_key_to_value,
    axiom_contains_deref_key,
};

/// The task-id counter: the last id handed out, zero before the first.
pub struct TaskCounter {
    count: u32,
}

impl View for TaskCounter {
    type V = nat;

    closed spec fn view(&self) -> nat {
        self.count as nat
    }
}

impl TaskCounter {
    /// A counter that has handed out no id.
    pub fn new() -> (r: TaskCounter)
        ensures
            r@ == 0,
    {
        TaskCounter { count: 0 }
    }

    /// A counter that resumes after `count` ids were handed out.
    pub fn resume(count: u32) -> (r: TaskCounter)
        ensures
            r@ == count,
    {
        TaskCounter { count }
    }

    /// The last id handed out.
    pub fn current(&self) -> (r: u32)
        ensures
            r == self@,
    {
        self.count
    }

    /// Advances the counter and returns the new id.
    pub fn next_id(&mut self) -> (r: u32)
        requires
            old(self)@ < u32::MAX,
        ensures
            r == old(self)@ + 1,
            final(self)@ == r,
    {
        self.count = self.count + 1;
        self.count
    }
}

/// Keyed storage of task records.
pub struct TaskStore {
    tasks: HashMap<u32, Task>,
}

impl View for TaskStore {
    type V = Map<u32, TaskView>;

    closed spec fn view(&self) -> Map<u32, TaskView> {
        self.tasks@.map_values(|t: Task| t@)
    }
}

impl TaskStore {
    /// A store that holds no task.
    pub fn new() -> (r: TaskStore)
        ensures
            r@ == Map::<u32, TaskView>::empty(),
    {
        let r = TaskStore { tasks: HashMap::new() };
        assert(r@ =~= Map::<u32, TaskView>::empty());
        r
    }

    /// The task stored under `id`, if any.
    pub fn get(&self, id: u32) -> (r: Option<&Task>)
        ensures
            match r {
                Some(t) => self@.contains_key(id) && t@ == self@[id],
                None => !self@.contains_key(id),
            },
    {
        self.tasks.get(&id)
    }

    /// Removes the task stored under `id` and hands it out.
    pub fn take(&mut self, id: u32) -> (r: Option<Task>)
        ensures
            final(self)@ == old(self)@.remove(id),
            match r {
                Some(t) => old(self)@.contains_key(id) && t@ == old(self)@[id],
                None => !old(self)@.contains_key(id),
            },
    {
        let r = self.tasks.remove(&id);
        assert(self@ =~= old(self)@.remove(id));
        r
    }

    /// Stores `t` under `id`, replacing any earlier record.
    pub fn put(&mut self, id: u32, t: Task)
        ensures
            final(self)@ == old(self)@.insert(id, t@),
    {
        let ghost tv = t@;
        self.tasks.insert(id, t);
        assert(self@ =~= old(self)@.insert(id, tv));
    }
}

} // verus!
