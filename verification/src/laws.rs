use vstd::prelude::*;

use crate::states::{
    create_step, created_idx, delete_step, initialized, mark_success_step, TodoAccount, UserProfile,
};

verus! {

/// Law: starting from a fresh profile, a run of creates with no intervening
/// deletes leaves `last_todo` and `todo_count` equal to the number of creates
/// performed, and the record created at step `k` receives sequence number `k`.
/// `states[0]` is the fresh profile and `states[k + 1]` the profile after the
/// `(k + 1)`-th create.
pub proof fn lemma_sequential_creates(states: Seq<UserProfile>, authority: Seq<u8>)
    requires
        0 < states.len(),
        initialized(states[0], authority),
        forall|k: int| 0 <= k < states.len() - 1 ==> #[trigger] create_step(states[k], states[k + 1]),
    ensures
        forall|k: int|
            0 <= k < states.len() ==> (#[trigger] states[k]).last_todo == k && states[k].todo_count
                == k,
        forall|k: int| 0 <= k < states.len() - 1 ==> created_idx(#[trigger] states[k]) == k,
    decreases states.len(),
{
    if states.len() > 1 {
        let prefix = states.subrange(0, states.len() - 1);
        lemma_sequential_creates(prefix, authority);
        assert(forall|k: int| 0 <= k < prefix.len() ==> prefix[k] == states[k]);
        let m = states.len() - 2;
        assert(create_step(states[m], states[m + 1]));
    }
}

/// Law: `last_todo` never decreases under any interleaving of creates and
/// deletes, so sequence numbers strictly increase across the profile's
/// lifetime.
pub proof fn lemma_last_todo_monotone(states: Seq<UserProfile>)
    requires
        forall|k: int|
            0 <= k < states.len() - 1 ==> #[trigger] create_step(states[k], states[k + 1])
                || delete_step(states[k], states[k + 1]),
    ensures
        forall|i: int, j: int|
            0 <= i <= j < states.len() ==> (#[trigger] states[i]).last_todo <= (
            #[trigger] states[j]).last_todo,
    decreases states.len(),
{
    if states.len() > 1 {
        let prefix = states.subrange(0, states.len() - 1);
        lemma_last_todo_monotone(prefix);
        assert(forall|k: int| 0 <= k < prefix.len() ==> prefix[k] == states[k]);
        let m = states.len() - 2;
        assert(create_step(states[m], states[m + 1]) || delete_step(states[m], states[m + 1]));
    }
}

/// Law: a delete followed by a create never reuses the deleted sequence
/// number: any later create hands out a strictly larger `idx` than any
/// earlier one, whatever mix of creates and deletes lies between them.
pub proof fn lemma_no_idx_reuse(states: Seq<UserProfile>, i: int, j: int)
    requires
        forall|k: int|
            0 <= k < states.len() - 1 ==> #[trigger] create_step(states[k], states[k + 1])
                || delete_step(states[k], states[k + 1]),
        0 <= i < j < states.len() - 1,
        create_step(states[i], states[i + 1]),
        create_step(states[j], states[j + 1]),
    ensures
        created_idx(states[i]) < created_idx(states[j]),
{
    lemma_last_todo_monotone(states);
    assert(states[i + 1].last_todo == states[i].last_todo + 1);
    assert(states[i + 1].last_todo <= states[j].last_todo);
}

/// Law: the completion flag goes false to true at most once: the record a
/// successful mark produced can never satisfy the mark success step again.
pub proof fn lemma_mark_only_once(a: TodoAccount, b: TodoAccount, c: TodoAccount)
    requires
        mark_success_step(a, b),
    ensures
        !mark_success_step(b, c),
{
}

} // verus!
