//! Lifetime accounting for one native client instance.
//!
//! The native engine pairs every `create` with exactly one `destroy`, but
//! enforces that only by documentation. Once a client is split into a
//! sending and a receiving half, the instance is owned jointly, and the
//! destroy call may be made only by whoever drops the last co-owner. This
//! module is the bookkeeping for that rule: a counter of live co-owners
//! whose transitions decide when the one destroy call is due.

use vstd::prelude::*;

verus! {

/// The lifetime state of one native client instance: how many wrapper
/// values co-own it, whether it has been torn down, and how many destroy
/// calls were made on it.
pub struct HandleLife {
    pub owners: u64,
    pub destroyed: bool,
    pub destroy_calls: u64,
}

/// An ownership event in the life of a shared native instance: a new
/// co-owner appears (a split hands out a second half), or a co-owner is
/// dropped.
#[derive(Clone, Copy, Debug, PartialEq, Eq, Structural)]
pub enum LifeOp {
    Share,
    Release,
}

impl HandleLife {
    /// How many wrapper values currently co-own the instance.
    pub open spec fn spec_owners(self) -> u64 {
        self.owners
    }

    /// Whether the native instance has been torn down.
    pub open spec fn spec_destroyed(self) -> bool {
        self.destroyed
    }

    /// How many destroy calls were made on the instance so far.
    pub open spec fn spec_destroy_calls(self) -> u64 {
        self.destroy_calls
    }

    /// The accounting is sound: the instance is destroyed exactly when no
    /// co-owner is left, and the destroy call has been made exactly once
    /// by then -- never before, never twice.
    pub open spec fn wf(self) -> bool {
        &&& self.destroyed <==> self.owners == 0
        &&& self.destroy_calls == if self.destroyed {
            1u64
        } else {
            0u64
        }
    }

    /// A freshly created instance: one owner, not destroyed.
    pub open spec fn spec_created() -> HandleLife {
        HandleLife { owners: 1, destroyed: false, destroy_calls: 0 }
    }

    /// State after one ownership event.
    pub open spec fn spec_step(self, op: LifeOp) -> HandleLife {
        match op {
            LifeOp::Share => HandleLife { owners: (self.owners + 1) as u64, ..self },
            LifeOp::Release => HandleLife {
                owners: (self.owners - 1) as u64,
                destroyed: self.owners == 1,
                destroy_calls: if self.owners == 1 {
                    (self.destroy_calls + 1) as u64
                } else {
                    self.destroy_calls
                },
            },
        }
    }

    /// State after a sequence of ownership events.
    pub open spec fn spec_after(self, ops: Seq<LifeOp>) -> HandleLife
        decreases ops.len(),
    {
        if ops.len() == 0 {
            self
        } else {
            self.spec_step(ops[0]).spec_after(ops.drop_first())
        }
    }

    /// Whether an ownership event is permitted in this state: only a live
    /// instance can gain or lose a co-owner, and the owner count must not
    /// saturate.
    pub open spec fn allows(self, op: LifeOp) -> bool {
        match op {
            LifeOp::Share => 0 < self.owners < u64::MAX,
            LifeOp::Release => 0 < self.owners,
        }
    }

    /// Marks the creation of a native instance, owned by one wrapper value.
    pub fn create() -> (h: HandleLife)
        ensures
            h == HandleLife::spec_created(),
            h.wf(),
    {
        HandleLife { owners: 1, destroyed: false, destroy_calls: 0 }
    }

    /// Records a new co-owner of a live instance.
    pub fn share(&mut self)
        requires
            old(self).wf(),
            old(self).allows(LifeOp::Share),
        ensures
            *final(self) == old(self).spec_step(LifeOp::Share),
            final(self).wf(),
    {
        self.owners = self.owners + 1;
    }

    /// Records that a co-owner was dropped. Returns true exactly when the
    /// dropped co-owner was the last one; the caller must then make the one
    /// destroy call, which this records.
    pub fn release(&mut self) -> (destroy_now: bool)
        requires
            old(self).wf(),
            old(self).allows(LifeOp::Release),
        ensures
            *final(self) == old(self).spec_step(LifeOp::Release),
            final(self).wf(),
            destroy_now <==> old(self).spec_owners() == 1,
            destroy_now <==> final(self).spec_destroyed(),
    {
        self.owners = self.owners - 1;
        if self.owners == 0 {
            self.destroyed = true;
            self.destroy_calls = self.destroy_calls + 1;
            true
        } else {
            false
        }
    }

    /// How many wrapper values currently co-own the instance.
    pub fn owners(&self) -> (r: u64)
        ensures
            r == self.spec_owners(),
    {
        self.owners
    }

    /// Whether the native instance has been torn down.
    pub fn is_destroyed(&self) -> (r: bool)
        ensures
            r == self.spec_destroyed(),
    {
        self.destroyed
    }

    /// How many destroy calls were made on the instance so far.
    pub fn destroy_calls(&self) -> (r: u64)
        ensures
            r == self.spec_destroy_calls(),
    {
        self.destroy_calls
    }
}

/// One ownership event keeps the accounting sound and never destroys a
/// shared instance early: after a permitted event, the instance is gone
/// only if the last co-owner was just dropped.
pub proof fn lemma_step_wf(h: HandleLife, op: LifeOp)
    requires
        h.wf(),
        h.allows(op),
    ensures
        h.spec_step(op).wf(),
        h.spec_step(op).spec_destroyed() <==> op == LifeOp::Release && h.spec_owners() == 1,
{
}

/// However the co-owners of one native instance come and go -- any
/// interleaving of splits handing out halves and halves being dropped, as
/// long as each event happens while the instance is live -- the destroy
/// call is made exactly once, at the moment the last co-owner is dropped,
/// and never before: a sequence that leaves co-owners alive has made no
/// destroy call at all.
pub proof fn lemma_destroy_exactly_once(ops: Seq<LifeOp>)
    requires
        forall|i: int|
            0 <= i < ops.len() ==> HandleLife::spec_created().spec_after(
                ops.subrange(0, i),
            ).allows(#[trigger] ops[i]),
    ensures
        HandleLife::spec_created().spec_after(ops).wf(),
        HandleLife::spec_created().spec_after(ops).spec_owners() == 0
            ==> HandleLife::spec_created().spec_after(ops).spec_destroy_calls() == 1,
        HandleLife::spec_created().spec_after(ops).spec_owners() > 0
            ==> HandleLife::spec_created().spec_after(ops).spec_destroy_calls() == 0,
    decreases ops.len(),
{
    lemma_after_wf(HandleLife::spec_created(), ops);
}

/// Helper induction: a sound state stays sound over any sequence of
/// permitted events.
proof fn lemma_after_wf(h: HandleLife, ops: Seq<LifeOp>)
    requires
        h.wf(),
        forall|i: int| 0 <= i < ops.len() ==> h.spec_after(ops.subrange(0, i)).allows(
            #[trigger] ops[i],
        ),
    ensures
        h.spec_after(ops).wf(),
    decreases ops.len(),
{
    if ops.len() > 0 {
        assert(h.spec_after(ops.subrange(0, 0)) == h);
        lemma_step_wf(h, ops[0]);
        let h1 = h.spec_step(ops[0]);
        assert forall|i: int| 0 <= i < ops.drop_first().len() implies h1.spec_after(
            ops.drop_first().subrange(0, i),
        ).allows(#[trigger] ops.drop_first()[i]) by {
            assert(ops.subrange(0, i + 1).drop_first() =~= ops.drop_first().subrange(0, i));
            assert(h.spec_after(ops.subrange(0, i + 1)) == h1.spec_after(
                ops.drop_first().subrange(0, i),
            ));
        }
        lemma_after_wf(h1, ops.drop_first());
    }
}

} // verus!
