//! Handle identifiers and the allocators that issue them.
use std::sync::atomic::AtomicU64;
use vstd::prelude::*;

verus! {

/// The raw value of the identifier reserved for the default asset. No
/// allocator ever issues it.
pub const DEFAULT_HANDLE_ID: u64 = 1;

/// The raw value of the first identifier a fresh allocator issues.
pub const FIRST_HANDLE_ID: u64 = 2;

/// The identity of one asset slot. Two identifiers are the same exactly when
/// their raw values are; the raw value is also the serialized form.
#[derive(Debug, Clone, Copy, PartialEq, Eq, Hash, Structural)]
pub struct HandleId(pub u64);

impl HandleId {
    /// The identifier of the default asset.
    pub open spec fn sentinel() -> HandleId {
        HandleId(DEFAULT_HANDLE_ID)
    }

    /// Whether this is the identifier of the default asset.
    pub fn is_default(&self) -> (r: bool)
        ensures
            r == (*self == HandleId::sentinel()),
    {
        self.0 == DEFAULT_HANDLE_ID
    }
}

impl Default for HandleId {
    /// The identifier of the default asset.
    fn default() -> (id: Self)
        ensures
            id == HandleId::sentinel(),
    {
        HandleId(DEFAULT_HANDLE_ID)
    }
}

/// Issues identifiers, each one once, to the one caller that holds it.
///
/// The allocator is a counter: the `k`-th identifier it issues (counting from
/// zero) has the raw value `FIRST_HANDLE_ID + k`. Threads that share one
/// allocator use `AtomicHandleAllocator`.
pub struct HandleAllocator {
    next: u64,
}

impl HandleAllocator {
    #[verifier::type_invariant]
    spec fn counter_past_sentinel(self) -> bool {
        self.next >= FIRST_HANDLE_ID
    }

    /// How many identifiers this allocator has issued so far.
    pub closed spec fn issued(&self) -> nat {
        (self.next - FIRST_HANDLE_ID) as nat
    }

    /// The identifier that is issued `k`-th by any allocator.
    pub open spec fn nth_id(k: nat) -> HandleId {
        HandleId((FIRST_HANDLE_ID + k) as u64)
    }

    /// The largest number of identifiers one allocator can issue.
    pub open spec fn capacity() -> nat {
        (u64::MAX - FIRST_HANDLE_ID) as nat
    }

    /// Whether every identifier has been issued.
    pub open spec fn spec_is_exhausted(&self) -> bool {
        self.issued() >= Self::capacity()
    }

    /// An allocator that has issued nothing.
    pub fn new() -> (allocator: Self)
        ensures
            allocator.issued() == 0,
    {
        HandleAllocator { next: FIRST_HANDLE_ID }
    }

    /// Whether every identifier has been issued, so that `allocate` may no
    /// longer be called.
    #[verifier::when_used_as_spec(spec_is_exhausted)]
    pub fn is_exhausted(&self) -> (r: bool)
        ensures
            r == self.spec_is_exhausted(),
            self.issued() <= Self::capacity(),
    {
        proof {
            use_type_invariant(self);
        }
        self.next == u64::MAX
    }

    /// Issues the next identifier.
    pub fn allocate(&mut self) -> (id: HandleId)
        requires
            !old(self).is_exhausted(),
        ensures
            id == Self::nth_id(old(self).issued()),
            final(self).issued() == old(self).issued() + 1,
            id != HandleId::sentinel(),
    {
        proof {
            use_type_invariant(&*self);
        }
        let id = HandleId(self.next);
        self.next = self.next + 1;
        id
    }
}

/// The identifier for a value read from an allocation counter: the value
/// itself, unless the counter has run over into the values below
/// `FIRST_HANDLE_ID`, which no handle may get.
pub open spec fn counter_id(raw: u64) -> Option<HandleId> {
    if raw >= FIRST_HANDLE_ID {
        Some(HandleId(raw))
    } else {
        None
    }
}

/// The identifier for a value read from an allocation counter: the value
/// itself, unless the counter has run over into the values below
/// `FIRST_HANDLE_ID`, which no handle may get.
pub fn id_of_counter(raw: u64) -> (id: Option<HandleId>)
    ensures
        id == counter_id(raw),
{
    if raw >= FIRST_HANDLE_ID {
        Some(HandleId(raw))
    } else {
        None
    }
}

/// Issues identifiers to any number of threads at once, without a lock.
///
/// The counter is one atomic integer that starts at `FIRST_HANDLE_ID` and is
/// advanced by one on every call. What other threads do to it in between is
/// not visible here, so a call promises no particular identifier; that the
/// counter hands each value to one caller only is the atomic's own guarantee.
pub struct AtomicHandleAllocator {
    next: AtomicU64,
}

impl AtomicHandleAllocator {
    /// An allocator that has issued nothing.
    pub fn new() -> Self {
        AtomicHandleAllocator { next: AtomicU64::new(FIRST_HANDLE_ID) }
    }

    /// Issues the next identifier, or `None` once the counter has run over.
    /// The result is the identifier for the value that the counter held
    /// when this call advanced it.
    pub fn allocate(&self) -> (id: Option<HandleId>)
        ensures
            exists|raw: u64| id == #[trigger] counter_id(raw),
            match id {
                Some(id) => id.0 >= FIRST_HANDLE_ID && id != HandleId::sentinel(),
                None => true,
            },
    {
        let raw = self.next.fetch_add(1, std::sync::atomic::Ordering::Relaxed);
        let id = id_of_counter(raw);
        assert(id == counter_id(raw));
        id
    }
}

/// Calls that read different values from the counter get different
/// identifiers, and no value of the counter gives the identifier of the
/// default asset. That no two calls read the same value is the guarantee of
/// the atomic counter and is not proved here.
pub proof fn lemma_counter_ids_distinct(first: u64, second: u64)
    requires
        first != second,
    ensures
        counter_id(first).is_some() && counter_id(second).is_some() ==> counter_id(first)
            != counter_id(second),
        counter_id(first) != Some(HandleId::sentinel()),
        counter_id(second) != Some(HandleId::sentinel()),
{
}

/// Identifiers issued at different positions differ, and none of them is the
/// identifier of the default asset.
pub proof fn lemma_allocated_ids_distinct(i: nat, j: nat)
    requires
        i < HandleAllocator::capacity(),
        j < HandleAllocator::capacity(),
        i != j,
    ensures
        HandleAllocator::nth_id(i) != HandleAllocator::nth_id(j),
        HandleAllocator::nth_id(i) != HandleId::sentinel(),
        HandleAllocator::nth_id(j) != HandleId::sentinel(),
{
}

} // verus!
