//! The process-wide set of live sessions and the current save directory.
//!
//! A `Registry` owns one `Session` record per live connection, in insertion
//! order, together with the directory into which uploaded media segments are
//! written. The owner serializes access (one exclusive lock around every
//! read or mutation); this module holds the state and its transitions.

use vstd::prelude::*;

verus! {

/// The position of the last delivery failure in a broadcast pass, if any.
///
/// A broadcast attempts delivery to every session in insertion order and
/// keeps only the last failing position for eviction; earlier failures in
/// the same pass are overwritten (a known limitation carried by design).
pub open spec fn last_failure(outcomes: Seq<bool>) -> Option<int>
    decreases outcomes.len(),
{
    if outcomes.len() == 0 {
        None
    } else if !outcomes.last() {
        Some(outcomes.len() - 1)
    } else {
        last_failure(outcomes.drop_last())
    }
}

/// `last_failure` finds exactly the last `false`: it is `None` when every
/// delivery succeeded, and otherwise names a failing position after which
/// every delivery succeeded.
pub proof fn lemma_last_failure_characterization(outcomes: Seq<bool>)
    ensures
        (last_failure(outcomes) is None) <==> (forall|j: int|
            0 <= j < outcomes.len() ==> outcomes[j]),
        match last_failure(outcomes) {
            Some(k) => 0 <= k < outcomes.len() && !outcomes[k] && (forall|j: int|
                k < j < outcomes.len() ==> outcomes[j]),
            None => true,
        },
    decreases outcomes.len(),
{
    if outcomes.len() > 0 && outcomes.last() {
        lemma_last_failure_characterization(outcomes.drop_last());
        assert(forall|j: int|
            0 <= j < outcomes.len() - 1 ==> outcomes[j] == outcomes.drop_last()[j]);
    }
}

/// Whether a session was accepted from the loopback address (`Leader`) or
/// from anywhere else (`Follower`). Fixed at connection-accept time.
#[derive(Clone, Copy, PartialEq, Eq, Structural, Debug)]
pub enum Role {
    Leader,
    Follower,
}

/// One live connection, as the registry sees it: an opaque handle the owner
/// uses to reach the peer's transport, and the role fixed at accept time.
#[derive(Clone, Copy, PartialEq, Eq, Structural, Debug)]
pub struct Session {
    /// Identifies the send handle held by the owner for this connection.
    pub handle: u64,
    /// Leader or follower, from the peer's network origin.
    pub role: Role,
}

/// The live session set plus the current upload save directory.
pub struct Registry {
    /// Live sessions in insertion order; a session's slot is its position.
    pub sessions: Vec<Session>,
    /// Directory that uploaded media segments are written into.
    pub save_dir: String,
}

impl Registry {
    /// A registry with no sessions and the given initial save directory.
    pub fn new(save_dir: String) -> (r: Registry)
        ensures
            r.sessions@ =~= Seq::<Session>::empty(),
            r.save_dir@ == save_dir@,
    {
        Registry { sessions: Vec::new(), save_dir }
    }

    /// Appends a new session and returns its slot: the count before
    /// insertion. Never fails; membership grows by exactly one.
    pub fn register(&mut self, handle: u64, role: Role) -> (slot: usize)
        ensures
            slot == old(self).sessions@.len(),
            final(self).sessions@ == old(self).sessions@.push(Session { handle, role }),
            final(self).save_dir@ == old(self).save_dir@,
    {
        let slot = self.sessions.len();
        self.sessions.push(Session { handle, role });
        slot
    }

    /// Removes the session at `slot`; removing an absent slot is a no-op.
    pub fn unregister(&mut self, slot: usize)
        ensures
            slot < old(self).sessions@.len() ==> final(self).sessions@ == old(
                self,
            ).sessions@.remove(slot as int),
            slot >= old(self).sessions@.len() ==> final(self).sessions@ == old(self).sessions@,
            final(self).save_dir@ == old(self).save_dir@,
    {
        if slot < self.sessions.len() {
            self.sessions.remove(slot);
        }
    }

    /// The current save directory.
    pub fn get_save_dir(&self) -> (d: String)
        ensures
            d@ == self.save_dir@,
    {
        self.save_dir.clone()
    }

    /// Replaces the save directory; membership is untouched.
    pub fn set_save_dir(&mut self, dir: String)
        ensures
            final(self).save_dir@ == dir@,
            final(self).sessions@ == old(self).sessions@,
    {
        self.save_dir = dir;
    }

    /// The send handles a broadcast must attempt, one per registered
    /// session, in insertion order. The owner performs the deliveries and
    /// reports the outcomes to `apply_broadcast`.
    pub fn broadcast_targets(&self) -> (targets: Vec<u64>)
        ensures
            targets@.len() == self.sessions@.len(),
            forall|j: int|
                0 <= j < targets@.len() ==> targets@[j] == self.sessions@[j].handle,
    {
        let mut targets: Vec<u64> = Vec::new();
        let mut i: usize = 0;
        while i < self.sessions.len()
            invariant
                i <= self.sessions@.len(),
                targets@.len() == i,
                forall|j: int| 0 <= j < i ==> targets@[j] == self.sessions@[j].handle,
            decreases self.sessions@.len() - i,
        {
            targets.push(self.sessions[i].handle);
            i += 1;
        }
        targets
    }

    /// Completes a broadcast pass: given one delivery outcome per session
    /// (`true` = delivered), evicts the session at the last failing
    /// position, if any, and returns its slot. Delivery failure is never
    /// surfaced to the sender; it only triggers this eviction.
    pub fn apply_broadcast(&mut self, outcomes: &Vec<bool>) -> (evicted: Option<usize>)
        requires
            outcomes@.len() == old(self).sessions@.len(),
        ensures
            final(self).save_dir@ == old(self).save_dir@,
            match last_failure(outcomes@) {
                None => final(self).sessions@ == old(self).sessions@ && evicted is None,
                Some(k) => final(self).sessions@ == old(self).sessions@.remove(k) && evicted
                    == Some(k as usize),
            },
    {
        let mut idx_to_rm: Option<usize> = None;
        let mut i: usize = 0;
        while i < outcomes.len()
            invariant
                i <= outcomes@.len(),
                match idx_to_rm {
                    None => last_failure(outcomes@.take(i as int)) is None,
                    Some(k) => k < i && last_failure(outcomes@.take(i as int)) == Some(k as int),
                },
            decreases outcomes@.len() - i,
        {
            proof {
                assert(outcomes@.take(i + 1).drop_last() =~= outcomes@.take(i as int));
                assert(outcomes@.take(i + 1).last() == outcomes@[i as int]);
            }
            if !outcomes[i] {
                idx_to_rm = Some(i);
            }
            i += 1;
        }
        proof {
            assert(outcomes@.take(outcomes@.len() as int) =~= outcomes@);
        }
        match idx_to_rm {
            Some(k) => {
                self.sessions.remove(k);
                Some(k)
            },
            None => None,
        }
    }
}

/// Law: a broadcast in which every delivery succeeds evicts nobody, so the
/// membership after `apply_broadcast` is exactly the membership before.
pub proof fn lemma_broadcast_all_ok(outcomes: Seq<bool>)
    requires
        forall|j: int| 0 <= j < outcomes.len() ==> outcomes[j],
    ensures
        last_failure(outcomes) is None,
{
    lemma_last_failure_characterization(outcomes);
}

/// Law: if exactly one delivery fails during a broadcast pass, exactly that
/// recipient is evicted; every other session is still present afterwards,
/// in its original order.
pub proof fn lemma_broadcast_single_failure(sessions: Seq<Session>, outcomes: Seq<bool>, i: int)
    requires
        outcomes.len() == sessions.len(),
        0 <= i < outcomes.len(),
        !outcomes[i],
        forall|j: int| 0 <= j < outcomes.len() && j != i ==> outcomes[j],
    ensures
        last_failure(outcomes) == Some(i),
        sessions.remove(i) == sessions.subrange(0, i) + sessions.subrange(
            i + 1,
            sessions.len() as int,
        ),
        forall|j: int| 0 <= j < sessions.len() && j != i ==> sessions.remove(i).contains(
            sessions[j],
        ),
{
    lemma_last_failure_characterization(outcomes);
    match last_failure(outcomes) {
        None => {
            assert(outcomes[i]);
        },
        Some(k) => {
            if k != i {
                assert(outcomes[k]);
            }
        },
    }
    sessions.remove_ensures(i);
    assert(sessions.remove(i) =~= sessions.subrange(0, i) + sessions.subrange(
        i + 1,
        sessions.len() as int,
    ));
    assert forall|j: int| 0 <= j < sessions.len() && j != i implies sessions.remove(i).contains(
        sessions[j],
    ) by {
        if j < i {
            assert(sessions.remove(i)[j] == sessions[j]);
        } else {
            assert(sessions.remove(i)[j - 1] == sessions[j]);
        }
    }
}

} // verus!
