use vstd::prelude::*;

use crate::error::TodoError;

verus! {

/// Per-owner aggregate state: how many items were ever created (`last_todo`,
/// also the next sequence number to assign) and how many are currently live
/// (`todo_count`).
#[derive(Clone, Debug, PartialEq, Eq)]
pub struct UserProfile {
    /// The identity that owns this profile; immutable after creation.
    pub authority: Vec<u8>,
    /// Next sequence number to assign. Monotonically increasing, never reused,
    /// even after deletions.
    pub last_todo: u8,
    /// Number of currently live items for this owner.
    pub todo_count: u8,
}

/// One todo item: its owner, its sequence number, its text, and whether it has
/// been completed.
#[derive(Clone, Debug, PartialEq, Eq)]
pub struct TodoAccount {
    /// The identity that owns this record; must equal the profile's authority.
    pub authority: Vec<u8>,
    /// The sequence number assigned at creation.
    pub idx: u8,
    /// Free-form text.
    pub content: String,
    /// Completion flag; starts false and can only ever go to true.
    pub marked: bool,
}

impl UserProfile {
    /// The profile invariant: live items never outnumber the items ever
    /// created.
    pub open spec fn wf(self) -> bool {
        self.todo_count <= self.last_todo
    }

    /// Both counters go up by one. Fails with `Overflow`, changing nothing,
    /// if either counter is at its ceiling.
    pub fn increment_on_create(&mut self) -> (r: Result<(), TodoError>)
        ensures
            old(self).last_todo < 255 && old(self).todo_count < 255 ==> ({
                &&& r == Ok::<(), TodoError>(())
                &&& create_step(*old(self), *final(self))
                &&& final(self).authority == old(self).authority
            }),
            old(self).last_todo == 255 || old(self).todo_count == 255 ==> ({
                &&& r == Err::<(), TodoError>(TodoError::Overflow)
                &&& *final(self) == *old(self)
            }),
            old(self).wf() ==> final(self).wf(),
    {
        if self.last_todo == 255 || self.todo_count == 255 {
            return Err(TodoError::Overflow);
        }
        self.last_todo = self.last_todo + 1;
        self.todo_count = self.todo_count + 1;
        Ok(())
    }

    /// The live-item counter goes down by one; `last_todo` is never
    /// decremented, so sequence numbers are never reused. Fails with
    /// `Underflow`, changing nothing, if no item is live.
    pub fn decrement_on_delete(&mut self) -> (r: Result<(), TodoError>)
        ensures
            old(self).todo_count > 0 ==> ({
                &&& r == Ok::<(), TodoError>(())
                &&& delete_step(*old(self), *final(self))
                &&& final(self).authority == old(self).authority
            }),
            old(self).todo_count == 0 ==> ({
                &&& r == Err::<(), TodoError>(TodoError::Underflow)
                &&& *final(self) == *old(self)
            }),
            old(self).wf() ==> final(self).wf(),
    {
        if self.todo_count == 0 {
            return Err(TodoError::Underflow);
        }
        self.todo_count = self.todo_count - 1;
        Ok(())
    }
}

/// A freshly initialized profile for `authority`: both counters at zero.
pub open spec fn initialized(p: UserProfile, authority: Seq<u8>) -> bool {
    &&& p.authority@ == authority
    &&& p.last_todo == 0
    &&& p.todo_count == 0
}

/// How a successful create changes the owner's profile: both counters go up
/// by one and the authority stays.
pub open spec fn create_step(pre: UserProfile, post: UserProfile) -> bool {
    &&& post.authority@ == pre.authority@
    &&& pre.last_todo < 255
    &&& pre.todo_count < 255
    &&& post.last_todo == pre.last_todo + 1
    &&& post.todo_count == pre.todo_count + 1
}

/// How a successful delete changes the owner's profile: the live-item counter
/// goes down by one while `last_todo` and the authority stay.
pub open spec fn delete_step(pre: UserProfile, post: UserProfile) -> bool {
    &&& post.authority@ == pre.authority@
    &&& pre.todo_count > 0
    &&& post.last_todo == pre.last_todo
    &&& post.todo_count == pre.todo_count - 1
}

/// The sequence number a create performed against profile state `pre` assigns
/// to the new record.
pub open spec fn created_idx(pre: UserProfile) -> u8 {
    pre.last_todo
}

/// How a successful mark changes a record: the completion flag goes from
/// false to true and every other field stays.
pub open spec fn mark_success_step(pre: TodoAccount, post: TodoAccount) -> bool {
    &&& !pre.marked
    &&& post.marked
    &&& post.authority@ == pre.authority@
    &&& post.idx == pre.idx
    &&& post.content@ == pre.content@
}

/// Whether record `t` sits at the logical address (authority, idx).
pub open spec fn record_at(t: TodoAccount, authority: Seq<u8>, idx: u8) -> bool {
    t.authority@ == authority && t.idx == idx
}

/// Byte-wise equality of two owner identities.
pub fn keys_equal(a: &Vec<u8>, b: &Vec<u8>) -> (r: bool)
    ensures
        r == (a@ == b@),
{
    if a.len() != b.len() {
        return false;
    }
    let mut i: usize = 0;
    while i < a.len()
        invariant
            0 <= i <= a@.len(),
            a@.len() == b@.len(),
            forall|j: int| 0 <= j < i ==> a@[j] == b@[j],
        decreases a@.len() - i,
    {
        if a[i] != b[i] {
            return false;
        }
        i += 1;
    }
    proof {
        assert(a@ =~= b@);
    }
    true
}

/// An owned copy of an owner identity.
pub fn clone_key(v: &Vec<u8>) -> (r: Vec<u8>)
    ensures
        r@ == v@,
{
    let mut r: Vec<u8> = Vec::new();
    let mut i: usize = 0;
    while i < v.len()
        invariant
            0 <= i <= v@.len(),
            r@ == v@.subrange(0, i as int),
        decreases v@.len() - i,
    {
        r.push(v[i]);
        i += 1;
        proof {
            assert(r@ =~= v@.subrange(0, i as int));
        }
    }
    proof {
        assert(r@ =~= v@);
    }
    r
}

} // verus!
