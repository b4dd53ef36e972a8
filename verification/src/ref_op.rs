//! Ownership signals and the queue that carries them to an asset's owner.
use crate::handle_id::HandleId;
use vstd::prelude::*;

verus! {

/// One ownership signal. The owner of the assets keeps the actual counts.
#[derive(Debug, Clone, Copy, PartialEq, Eq, Hash, Structural)]
pub enum RefOp {
    /// A handle to the asset came into being.
    AddReference(HandleId),
    /// A handle to the asset was released.
    RemoveReference(HandleId),
}

impl RefOp {
    /// The identifier the signal is about.
    pub open spec fn spec_id(&self) -> HandleId {
        match *self {
            RefOp::AddReference(id) => id,
            RefOp::RemoveReference(id) => id,
        }
    }

    /// The identifier the signal is about.
    #[verifier::when_used_as_spec(spec_id)]
    pub fn id(&self) -> (id: HandleId)
        ensures
            id == self.spec_id(),
    {
        match *self {
            RefOp::AddReference(id) => id,
            RefOp::RemoveReference(id) => id,
        }
    }
}

/// How many `AddReference` signals for `id` the log holds.
pub open spec fn add_count(log: Seq<RefOp>, id: HandleId) -> nat
    decreases log.len(),
{
    if log.len() == 0 {
        0
    } else {
        add_count(log.drop_last(), id) + if log.last() == RefOp::AddReference(id) {
            1nat
        } else {
            0nat
        }
    }
}

/// How many `RemoveReference` signals for `id` the log holds.
pub open spec fn remove_count(log: Seq<RefOp>, id: HandleId) -> nat
    decreases log.len(),
{
    if log.len() == 0 {
        0
    } else {
        remove_count(log.drop_last(), id) + if log.last() == RefOp::RemoveReference(id) {
            1nat
        } else {
            0nat
        }
    }
}

/// The count an owner that started at zero holds for `id` after the log.
pub open spec fn live_count(log: Seq<RefOp>, id: HandleId) -> int {
    add_count(log, id) - remove_count(log, id)
}

/// How many times over the log a `RemoveReference` brought the owner's count
/// for `id` to zero.
pub open spec fn zero_count(log: Seq<RefOp>, id: HandleId) -> nat
    decreases log.len(),
{
    if log.len() == 0 {
        0
    } else {
        zero_count(log.drop_last(), id) + if log.last() == RefOp::RemoveReference(id)
            && live_count(log, id) == 0 {
            1nat
        } else {
            0nat
        }
    }
}

/// The signals of `built` handles to `id` coming into being, followed by
/// `dropped` of them being released.
pub open spec fn lifecycle(id: HandleId, built: nat, dropped: nat) -> Seq<RefOp> {
    Seq::new(
        built + dropped,
        |i: int|
            if i < built {
                RefOp::AddReference(id)
            } else {
                RefOp::RemoveReference(id)
            },
    )
}

/// One more signal changes the counts for its own identifier by one and
/// leaves every other identifier's counts alone.
pub proof fn lemma_counts_after_push(log: Seq<RefOp>, op: RefOp, id: HandleId)
    ensures
        add_count(log.push(op), id) == add_count(log, id) + if op == RefOp::AddReference(id) {
            1nat
        } else {
            0nat
        },
        remove_count(log.push(op), id) == remove_count(log, id) + if op
            == RefOp::RemoveReference(id) {
            1nat
        } else {
            0nat
        },
        op.id() != id ==> live_count(log.push(op), id) == live_count(log, id),
        op.id() != id ==> zero_count(log.push(op), id) == zero_count(log, id),
{
    assert(log.push(op).drop_last() =~= log);
    assert(log.push(op).last() == op);
}

proof fn lemma_lifecycle_counts(before: Seq<RefOp>, id: HandleId, built: nat, dropped: nat)
    ensures
        add_count(before + lifecycle(id, built, dropped), id) == add_count(before, id) + built,
        remove_count(before + lifecycle(id, built, dropped), id) == remove_count(before, id)
            + dropped,
        zero_count(before + lifecycle(id, built, dropped), id) == zero_count(before, id) + if 1
            <= live_count(before, id) + built <= dropped {
            1nat
        } else {
            0nat
        },
    decreases built + dropped,
{
    let log = before + lifecycle(id, built, dropped);
    if built + dropped == 0 {
        assert(log =~= before);
    } else if dropped > 0 {
        let shorter = before + lifecycle(id, built, (dropped - 1) as nat);
        assert(log.drop_last() =~= shorter);
        assert(log.last() == RefOp::RemoveReference(id));
        lemma_lifecycle_counts(before, id, built, (dropped - 1) as nat);
    } else {
        let shorter = before + lifecycle(id, (built - 1) as nat, 0);
        assert(log.drop_last() =~= shorter);
        assert(log.last() == RefOp::AddReference(id));
        lemma_lifecycle_counts(before, id, (built - 1) as nat, 0);
    }
}

/// When `n` handles to one identifier come into being and all `n` are then
/// released, whatever was signalled before, as many `AddReference` as
/// `RemoveReference` signals were sent for it and the owner's count is back
/// where it was. If no handle to it was alive before, the count came to zero
/// exactly once, at the last release; if one was, it never came to zero.
pub proof fn lemma_refcount_balance(before: Seq<RefOp>, id: HandleId, n: nat)
    requires
        n > 0,
    ensures
        add_count(before + lifecycle(id, n, n), id) == add_count(before, id) + n,
        remove_count(before + lifecycle(id, n, n), id) == remove_count(before, id) + n,
        live_count(before + lifecycle(id, n, n), id) == live_count(before, id),
        live_count(before, id) == 0 ==> zero_count(before + lifecycle(id, n, n), id)
            == zero_count(before, id) + 1,
        live_count(before, id) == 0 ==> zero_count(
            before + lifecycle(id, n, (n - 1) as nat),
            id,
        ) == zero_count(before, id),
        live_count(before, id) > 0 ==> zero_count(before + lifecycle(id, n, n), id) == zero_count(
            before,
            id,
        ),
{
    lemma_lifecycle_counts(before, id, n, n);
    lemma_lifecycle_counts(before, id, n, (n - 1) as nat);
}

/// The signals that are waiting to be handed to the owner, oldest first.
pub struct RefOpQueue {
    pending: Vec<RefOp>,
}

impl View for RefOpQueue {
    type V = Seq<RefOp>;

    closed spec fn view(&self) -> Seq<RefOp> {
        self.pending@
    }
}

impl RefOpQueue {
    /// A queue with no signal waiting.
    pub fn new() -> (queue: Self)
        ensures
            queue@ == Seq::<RefOp>::empty(),
    {
        RefOpQueue { pending: Vec::new() }
    }

    /// How many signals are waiting.
    pub fn len(&self) -> (n: usize)
        ensures
            n == self@.len(),
    {
        self.pending.len()
    }

    /// Puts one signal at the end of the queue.
    pub fn send(&mut self, op: RefOp)
        ensures
            final(self)@ == old(self)@.push(op),
    {
        self.pending.push(op);
    }

    /// Takes every waiting signal out, oldest first, and leaves the queue
    /// empty.
    pub fn drain(&mut self) -> (taken: Vec<RefOp>)
        ensures
            taken@ == old(self)@,
            final(self)@ == Seq::<RefOp>::empty(),
    {
        let mut taken: Vec<RefOp> = Vec::new();
        std::mem::swap(&mut taken, &mut self.pending);
        taken
    }
}

} // verus!
