//! Record-management core of a per-owner todo list: a profile per owner that
//! counts items, and one record per item holding its text and completion flag.
//! Every mutating operation is gated by an ownership check, counters move only
//! through checked arithmetic, and sequence numbers are never reused. The
//! surrounding runtime authenticates callers and loads and persists records by
//! derived address; this crate holds the rules that decide each operation.

use vstd::prelude::*;

pub mod error;
pub mod laws;
pub mod pda;
pub mod states;

use crate::error::TodoError;
use crate::states::{
    clone_key, create_step, created_idx, delete_step, initialized, keys_equal, record_at,
    TodoAccount, UserProfile,
};

verus! {

/// Creates the profile for `authority` with both counters at zero. `existing`
/// is whatever record the dispatcher found at the profile's derived address:
/// if one is already there, the operation fails with `AlreadyExists`.
pub fn initialize_user(authority: Vec<u8>, existing: Option<&UserProfile>) -> (r: Result<
    UserProfile,
    TodoError,
>)
    ensures
        existing is Some ==> r == Err::<UserProfile, TodoError>(TodoError::AlreadyExists),
        existing is None ==> ({
            &&& r is Ok
            &&& initialized(r->Ok_0, authority@)
            &&& r->Ok_0.authority == authority
            &&& r->Ok_0.wf()
        }),
{
    if existing.is_some() {
        return Err(TodoError::AlreadyExists);
    }
    Ok(UserProfile { authority, last_todo: 0, todo_count: 0 })
}

/// Creates a new record for `caller` with the next sequence number and the
/// given text, and bumps both of the profile's counters. `existing` is
/// whatever record the dispatcher found at the new record's derived address;
/// a collision there fails with `AlreadyExists`. On any failure the profile
/// is unchanged and no record is handed out.
pub fn create_todo(
    caller: &Vec<u8>,
    profile: &mut UserProfile,
    existing: Option<&TodoAccount>,
    content: String,
) -> (r: Result<TodoAccount, TodoError>)
    ensures
        caller@ != old(profile).authority@ ==> ({
            &&& r == Err::<TodoAccount, TodoError>(TodoError::Unauthorized)
            &&& *final(profile) == *old(profile)
        }),
        caller@ == old(profile).authority@ && existing is Some ==> ({
            &&& r == Err::<TodoAccount, TodoError>(TodoError::AlreadyExists)
            &&& *final(profile) == *old(profile)
        }),
        caller@ == old(profile).authority@ && existing is None && (old(profile).last_todo == 255
            || old(profile).todo_count == 255) ==> ({
            &&& r == Err::<TodoAccount, TodoError>(TodoError::Overflow)
            &&& *final(profile) == *old(profile)
        }),
        caller@ == old(profile).authority@ && existing is None && old(profile).last_todo < 255
            && old(profile).todo_count < 255 ==> ({
            &&& r is Ok
            &&& create_step(*old(profile), *final(profile))
            &&& final(profile).authority == old(profile).authority
            &&& record_at(r->Ok_0, caller@, created_idx(*old(profile)))
            &&& r->Ok_0.content == content
            &&& r->Ok_0.marked == false
        }),
        old(profile).wf() ==> final(profile).wf(),
{
    if !keys_equal(caller, &profile.authority) {
        return Err(TodoError::Unauthorized);
    }
    if existing.is_some() {
        return Err(TodoError::AlreadyExists);
    }
    let idx = profile.last_todo;
    match profile.increment_on_create() {
        Ok(()) => Ok(TodoAccount { authority: clone_key(caller), idx, content, marked: false }),
        Err(e) => Err(e),
    }
}

/// Replaces the record's text. Fails with `Unauthorized`, changing nothing,
/// when the caller is not the record's authority; no other field ever changes.
pub fn update_todo(caller: &Vec<u8>, todo: &mut TodoAccount, content: String) -> (r: Result<
    (),
    TodoError,
>)
    ensures
        caller@ != old(todo).authority@ ==> ({
            &&& r == Err::<(), TodoError>(TodoError::Unauthorized)
            &&& *final(todo) == *old(todo)
        }),
        caller@ == old(todo).authority@ ==> ({
            &&& r == Ok::<(), TodoError>(())
            &&& final(todo).authority == old(todo).authority
            &&& final(todo).idx == old(todo).idx
            &&& final(todo).marked == old(todo).marked
            &&& final(todo).content == content
        }),
{
    if !keys_equal(caller, &todo.authority) {
        return Err(TodoError::Unauthorized);
    }
    todo.content = content;
    Ok(())
}

/// Sets the record's completion flag, a one-way transition. Fails with
/// `Unauthorized` for a caller that is not the record's authority, and with
/// `AlreadyMarked` when the flag is already set; either failure changes
/// nothing.
pub fn mark_todo(caller: &Vec<u8>, todo: &mut TodoAccount) -> (r: Result<(), TodoError>)
    ensures
        caller@ != old(todo).authority@ ==> ({
            &&& r == Err::<(), TodoError>(TodoError::Unauthorized)
            &&& *final(todo) == *old(todo)
        }),
        caller@ == old(todo).authority@ && old(todo).marked ==> ({
            &&& r == Err::<(), TodoError>(TodoError::AlreadyMarked)
            &&& *final(todo) == *old(todo)
        }),
        caller@ == old(todo).authority@ && !old(todo).marked ==> ({
            &&& r == Ok::<(), TodoError>(())
            &&& crate::states::mark_success_step(*old(todo), *final(todo))
            &&& final(todo).authority == old(todo).authority
            &&& final(todo).idx == old(todo).idx
            &&& final(todo).content == old(todo).content
        }),
{
    if !keys_equal(caller, &todo.authority) {
        return Err(TodoError::Unauthorized);
    }
    if todo.marked {
        return Err(TodoError::AlreadyMarked);
    }
    todo.marked = true;
    Ok(())
}

/// Removes one live item from the profile's count; the record itself is
/// destroyed by the dispatcher after this succeeds. Deletion does not require
/// the record to be marked. Fails with `Unauthorized`, changing nothing, when
/// the caller owns neither the record nor the profile; `last_todo` never goes
/// down, so the deleted sequence number is never reassigned.
pub fn delete_todo(caller: &Vec<u8>, profile: &mut UserProfile, todo: &TodoAccount) -> (r: Result<
    (),
    TodoError,
>)
    ensures
        caller@ != todo.authority@ || caller@ != old(profile).authority@ ==> ({
            &&& r == Err::<(), TodoError>(TodoError::Unauthorized)
            &&& *final(profile) == *old(profile)
        }),
        caller@ == todo.authority@ && caller@ == old(profile).authority@ && old(profile).todo_count
            == 0 ==> ({
            &&& r == Err::<(), TodoError>(TodoError::Underflow)
            &&& *final(profile) == *old(profile)
        }),
        caller@ == todo.authority@ && caller@ == old(profile).authority@ && old(profile).todo_count
            > 0 ==> ({
            &&& r == Ok::<(), TodoError>(())
            &&& delete_step(*old(profile), *final(profile))
            &&& final(profile).authority == old(profile).authority
        }),
        old(profile).wf() ==> final(profile).wf(),
{
    if !keys_equal(caller, &todo.authority) || !keys_equal(caller, &profile.authority) {
        return Err(TodoError::Unauthorized);
    }
    match profile.decrement_on_delete() {
        Ok(()) => Ok(()),
        Err(e) => Err(e),
    }
}

/// Finds the position of the live record at logical address (authority, idx)
/// in the records the dispatcher holds, or fails with `NotFound` when no such
/// record exists.
pub fn find_todo(todos: &Vec<TodoAccount>, authority: &Vec<u8>, idx: u8) -> (r: Result<
    usize,
    TodoError,
>)
    ensures
        r is Ok ==> ({
            &&& 0 <= r->Ok_0 < todos@.len()
            &&& record_at(todos@[r->Ok_0 as int], authority@, idx)
            &&& forall|j: int|
                0 <= j < r->Ok_0 ==> !record_at(todos@[j], authority@, idx)
        }),
        r is Err ==> r == Err::<usize, TodoError>(TodoError::NotFound) && (forall|j: int|
            0 <= j < todos@.len() ==> !record_at(todos@[j], authority@, idx)),
{
    let mut k: usize = 0;
    while k < todos.len()
        invariant
            0 <= k <= todos@.len(),
            forall|j: int| 0 <= j < k ==> !record_at(todos@[j], authority@, idx),
        decreases todos@.len() - k,
    {
        if todos[k].idx == idx && keys_equal(authority, &todos[k].authority) {
            return Ok(k);
        }
        k += 1;
    }
    Err(TodoError::NotFound)
}

/// Reports whether every byte of an account's data is zero, i.e. the account
/// has never been written. The scan covers the full byte range, including the
/// final byte.
pub fn is_zero_account(data: &[u8]) -> (r: bool)
    ensures
        r == (forall|i: int| 0 <= i < data@.len() ==> data@[i] == 0),
{
    let mut k: usize = 0;
    while k < data.len()
        invariant
            0 <= k <= data@.len(),
            forall|i: int| 0 <= i < k ==> data@[i] == 0,
        decreases data@.len() - k,
    {
        if data[k] != 0 {
            return false;
        }
        k += 1;
    }
    true
}

} // verus!
