//! The shared context slot: a lazily-initialized, optionally-absent
//! holder of the session context.
//!
//! The embedder keeps one slot per process behind a mutual-exclusion
//! lock, so every logical operation on it is totally ordered by lock
//! acquisition. Under that ordering the slot behaves exactly as the
//! sequential operations below: it is filled at most once, emptied at
//! most once, and never re-filled within the same lifetime.

use vstd::prelude::*;

verus! {

/// The three phases of a slot's lifetime, in the order they can occur.
/// `Drained` is terminal: no operation leaves it.
pub enum SlotPhase {
    /// Never initialized; holds nothing.
    Fresh,
    /// Initialized and still holding the session context.
    Active,
    /// The context has been removed; the slot is never re-filled.
    Drained,
}

/// The logical operations a caller can issue on a slot.
pub enum SlotOp {
    InitializeOnce,
    WithContext,
    Take,
}

/// How one operation moves a slot from phase to phase.
pub open spec fn op_step(p: SlotPhase, op: SlotOp) -> SlotPhase {
    match op {
        SlotOp::InitializeOnce => if p is Fresh {
            SlotPhase::Active
        } else {
            p
        },
        SlotOp::WithContext => p,
        SlotOp::Take => if p is Active {
            SlotPhase::Drained
        } else {
            p
        },
    }
}

/// Whether a `Take` issued in phase `p` removes a value.
pub open spec fn take_succeeds(p: SlotPhase, op: SlotOp) -> bool {
    op is Take && p is Active
}

/// The phase after issuing `ops` in order, starting from `p`.
pub open spec fn run_phase(p: SlotPhase, ops: Seq<SlotOp>) -> SlotPhase
    decreases ops.len(),
{
    if ops.len() == 0 {
        p
    } else {
        run_phase(op_step(p, ops[0]), ops.skip(1))
    }
}

/// How many of the operations in `ops`, issued in order from `p`,
/// are takes that remove a value.
pub open spec fn successful_takes(p: SlotPhase, ops: Seq<SlotOp>) -> nat
    decreases ops.len(),
{
    if ops.len() == 0 {
        0
    } else {
        (if take_succeeds(p, ops[0]) {
            1nat
        } else {
            0nat
        }) + successful_takes(op_step(p, ops[0]), ops.skip(1))
    }
}

/// How many successful takes a slot in phase `p` can still serve.
pub open spec fn take_budget(p: SlotPhase) -> nat {
    match p {
        SlotPhase::Drained => 0,
        _ => 1,
    }
}

proof fn lemma_takes_within_budget(p: SlotPhase, ops: Seq<SlotOp>)
    ensures
        successful_takes(p, ops) <= take_budget(p),
    decreases ops.len(),
{
    if ops.len() > 0 {
        lemma_takes_within_budget(op_step(p, ops[0]), ops.skip(1));
    }
}

/// Law: over every sequence of slot operations issued from a fresh
/// slot — and so, through the lock's total order, over every
/// interleaving of operations from any number of threads — at most one
/// take removes the context; all other takes observe absence.
pub proof fn lemma_at_most_one_take(ops: Seq<SlotOp>)
    ensures
        successful_takes(SlotPhase::Fresh, ops) <= 1,
{
    lemma_takes_within_budget(SlotPhase::Fresh, ops);
}

/// Law: a drained slot stays drained; no later operation re-fills it.
pub proof fn lemma_drained_is_terminal(ops: Seq<SlotOp>)
    ensures
        run_phase(SlotPhase::Drained, ops) is Drained,
    decreases ops.len(),
{
    if ops.len() > 0 {
        lemma_drained_is_terminal(ops.skip(1));
    }
}

enum SlotState<T> {
    Fresh,
    Active(T),
    Drained,
}

/// A single cell holding an optionally-absent session context.
///
/// The embedder wraps it in a process-wide lock; each method below is
/// one logical operation under that lock.
pub struct ContextSlot<T> {
    state: SlotState<T>,
}

impl<T> ContextSlot<T> {
    /// The phase this slot is in.
    pub closed spec fn phase(self) -> SlotPhase {
        match self.state {
            SlotState::Fresh => SlotPhase::Fresh,
            SlotState::Active(_) => SlotPhase::Active,
            SlotState::Drained => SlotPhase::Drained,
        }
    }

    /// The context currently held, if any.
    pub closed spec fn stored(self) -> Option<T> {
        match self.state {
            SlotState::Active(t) => Some(t),
            _ => None,
        }
    }

    pub open spec fn is_fresh(self) -> bool {
        self.phase() is Fresh
    }

    pub open spec fn is_active(self) -> bool {
        self.phase() is Active
    }

    pub open spec fn is_drained(self) -> bool {
        self.phase() is Drained
    }

    /// A new slot: created empty, not yet initialized.
    pub fn new() -> (s: Self)
        ensures
            s.is_fresh(),
            s.stored() is None,
    {
        ContextSlot { state: SlotState::Fresh }
    }

    /// First call on a fresh slot installs `ctx`; every later call is a
    /// no-op that leaves the slot exactly as it was. In particular a
    /// drained slot is never re-filled.
    pub fn initialize_once(&mut self, ctx: T)
        ensures
            final(self).phase() == op_step(old(self).phase(), SlotOp::InitializeOnce),
            old(self).is_fresh() ==> final(self).stored() == Some(ctx),
            !old(self).is_fresh() ==> *final(self) == *old(self),
    {
        let fresh = matches!(self.state, SlotState::Fresh);
        if fresh {
            self.state = SlotState::Active(ctx);
        }
    }

    /// Removes and returns the held context. On an active slot exactly
    /// one caller obtains the value and the slot becomes drained; on
    /// any other slot this returns nothing and changes nothing.
    pub fn take(&mut self) -> (r: Option<T>)
        ensures
            r == old(self).stored(),
            r is Some <==> take_succeeds(old(self).phase(), SlotOp::Take),
            final(self).phase() == op_step(old(self).phase(), SlotOp::Take),
            final(self).stored() is None,
            !old(self).is_active() ==> *final(self) == *old(self),
    {
        let mut st = SlotState::Drained;
        core::mem::swap(&mut self.state, &mut st);
        match st {
            SlotState::Active(t) => Some(t),
            SlotState::Fresh => {
                self.state = SlotState::Fresh;
                None
            },
            SlotState::Drained => None,
        }
    }

    /// Applies `f` to the held context if one is present and returns
    /// its result; returns nothing — and calls nothing — if the slot is
    /// empty. The slot itself is left untouched either way.
    pub fn with_context<R, F: FnOnce(&T) -> R>(&self, f: F) -> (r: Option<R>)
        requires
            forall|t: &T| self.stored() == Some(*t) ==> call_requires(f, (t,)),
        ensures
            r is Some <==> self.is_active(),
            r matches Some(out) ==> exists|t: &T|
                self.stored() == Some(*t) && call_ensures(f, (t,), out),
    {
        match &self.state {
            SlotState::Active(t) => {
                proof {
                    assert(self.stored() == Some(*t));
                }
                Some(f(t))
            },
            _ => None,
        }
    }

    /// Whether a context is currently present.
    pub fn has_context(&self) -> (r: bool)
        ensures
            r == self.is_active(),
    {
        matches!(self.state, SlotState::Active(_))
    }

    /// Whether the slot has never been initialized — as opposed to
    /// having been initialized and then drained, which from the
    /// outside also looks empty but can never be filled again.
    pub fn is_uninitialized(&self) -> (r: bool)
        ensures
            r == self.is_fresh(),
    {
        matches!(self.state, SlotState::Fresh)
    }
}

} // verus!
