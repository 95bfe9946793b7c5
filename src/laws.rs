use vstd::prelude::*;

use crate::contract::{create_outcome, empty_state, query_outcome, release_outcome, state_wf, submit_outcome, BountyView};
use crate::error::ContractError;

verus! {

/// The arguments of one `create_task` call.
pub struct CreateCall {
    pub creator: Seq<char>,
    pub title: Seq<char>,
    pub amount: i128,
}

/// The state and the results after running `calls` one after another from `s`.
pub open spec fn create_all(s: BountyView, calls: Seq<CreateCall>) -> (BountyView, Seq<Result<u32, ContractError>>)
    decreases calls.len(),
{
    if calls.len() == 0 {
        (s, Seq::empty())
    } else {
        let (m, rs) = create_all(s, calls.drop_last());
        let c = calls.last();
        let (m2, r) = create_outcome(m, c.creator, c.title, c.amount);
        (m2, rs.push(r))
    }
}

/// How many of `calls` carry a positive amount.
pub open spec fn accepted_count(calls: Seq<CreateCall>) -> nat
    decreases calls.len(),
{
    if calls.len() == 0 {
        0
    } else {
        accepted_count(calls.drop_last()) + if calls.last().amount > 0 { 1nat } else { 0nat }
    }
}

/// Starting from the empty state, the k-th successful `create_task` returns id k:
/// successful calls get `1, 2, 3, ...` with no gap and no repeat, a refused call
/// gets `InvalidAmount`, and the counter ends at the number of successes.
pub proof fn lemma_ids_are_consecutive(calls: Seq<CreateCall>)
    requires
        accepted_count(calls) <= u32::MAX,
    ensures
        create_all(empty_state(), calls).1.len() == calls.len(),
        create_all(empty_state(), calls).0.count == accepted_count(calls),
        forall|i: int| 0 <= i < calls.len() && calls[i].amount > 0
            ==> create_all(empty_state(), calls).1[i] == Ok::<u32, ContractError>(accepted_count(calls.take(i + 1)) as u32),
        forall|i: int| 0 <= i < calls.len() && calls[i].amount <= 0
            ==> create_all(empty_state(), calls).1[i] == Err::<u32, ContractError>(ContractError::InvalidAmount),
    decreases calls.len(),
{
    if calls.len() > 0 {
        let prefix = calls.drop_last();
        assert(accepted_count(prefix) <= accepted_count(calls));
        lemma_ids_are_consecutive(prefix);
        let n = calls.len() - 1;
        assert(calls.take(n + 1) =~= calls);
        assert forall|i: int| 0 <= i < n implies #[trigger] calls.take(i + 1) == prefix.take(i + 1) by {
            assert(calls.take(i + 1) =~= prefix.take(i + 1));
        }
        assert forall|i: int| 0 <= i < n implies #[trigger] calls[i] == prefix[i] by {}
    }
}

/// A `create_task` with an amount that is not positive fails with `InvalidAmount`
/// and leaves the state, counter included, as it was.
pub proof fn lemma_invalid_amount_changes_nothing(s: BountyView, creator: Seq<char>, title: Seq<char>, amount: i128)
    requires
        amount <= 0,
    ensures
        create_outcome(s, creator, title, amount) == (s, Err::<u32, ContractError>(ContractError::InvalidAmount)),
{
}

/// Once a submission on a task has been accepted, every later submission on it
/// fails with `AlreadyCompleted`, whoever makes it, and changes nothing.
pub proof fn lemma_submit_at_most_once(s: BountyView, id: u32, first: Seq<char>, second: Seq<char>)
    ensures
        submit_outcome(s, id, first).1 is Ok ==> submit_outcome(submit_outcome(s, id, first).0, id, second) == (
            submit_outcome(s, id, first).0,
            Err::<bool, ContractError>(ContractError::AlreadyCompleted),
        ),
{
}

/// Releasing the funds of a task that was just created, before any submission,
/// fails with `NotCompleted` even for its creator.
pub proof fn lemma_release_before_submit(s: BountyView, creator: Seq<char>, title: Seq<char>, amount: i128)
    requires
        amount > 0,
        s.count < u32::MAX,
    ensures
        create_outcome(s, creator, title, amount).1 == Ok::<u32, ContractError>((s.count + 1) as u32),
        release_outcome(create_outcome(s, creator, title, amount).0, (s.count + 1) as u32, creator) == (
            create_outcome(s, creator, title, amount).0,
            Err::<bool, ContractError>(ContractError::NotCompleted),
        ),
{
}

/// Anyone but a task's stored creator is refused with `Unauthorized`, and nothing changes.
pub proof fn lemma_release_only_by_creator(s: BountyView, id: u32, caller: Seq<char>)
    requires
        s.tasks.contains_key(id),
        s.tasks[id].creator != caller,
    ensures
        release_outcome(s, id, caller) == (s, Err::<bool, ContractError>(ContractError::Unauthorized)),
{
}

/// After a successful release, the creator's every further release fails with
/// `AlreadyPaid` and changes nothing.
pub proof fn lemma_release_at_most_once(s: BountyView, id: u32, caller: Seq<char>)
    ensures
        release_outcome(s, id, caller).1 is Ok ==> release_outcome(release_outcome(s, id, caller).0, id, caller) == (
            release_outcome(s, id, caller).0,
            Err::<bool, ContractError>(ContractError::AlreadyPaid),
        ),
{
}

/// A query on an id that holds no task shows nothing.
pub proof fn lemma_query_unknown_is_empty(s: BountyView, id: u32)
    requires
        !s.tasks.contains_key(id),
    ensures
        query_outcome(s, id) == Seq::<Seq<char>>::empty(),
{
}

/// Every operation keeps the state reachable: the ids stay dense and every
/// stored task stays well formed.
pub proof fn lemma_operations_keep_state_wf(s: BountyView, id: u32, who: Seq<char>, title: Seq<char>, amount: i128)
    requires
        state_wf(s),
    ensures
        s.count < u32::MAX ==> state_wf(create_outcome(s, who, title, amount).0),
        state_wf(submit_outcome(s, id, who).0),
        state_wf(release_outcome(s, id, who).0),
{
}

} // verus!
