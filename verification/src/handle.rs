//! Typed and untyped handles.
//!
//! A handle is an identifier and, for the typed form, a compile-time tag. The
//! tag takes no part in equality or hashing. A handle holds one reference to
//! its asset: the function that brings a handle into being sends
//! `AddReference`, and `release` sends `RemoveReference`. Conversions between
//! the two forms and re-tagging pass the reference on and send nothing.
use crate::handle_id::HandleId;
use crate::ref_op::RefOp;
use crate::ref_op::RefOpQueue;
use std::hash::Hash;
use std::hash::Hasher;
use std::marker::PhantomData;
use vstd::prelude::*;
use vstd::std_specs::cmp::PartialEqSpec;
use vstd::std_specs::cmp::PartialEqSpecImpl;
use vstd::std_specs::convert::FromSpec;
use vstd::std_specs::convert::FromSpecImpl;

verus! {

/// `Hash::hash` of std for `u64`: feeds the value into the hasher. Nothing
/// is stated of the hasher's state.
pub assume_specification<H: Hasher>[ <u64 as Hash>::hash ](value: &u64, state: &mut H);

/// A handle to an asset of type `T`.
pub struct Handle<T> {
    id: HandleId,
    marker: PhantomData<T>,
}

/// A handle without the type tag, for collections that mix asset types.
#[derive(Debug)]
pub struct HandleUntyped {
    id: HandleId,
}

impl<T> Handle<T> {
    /// The identifier of the asset the handle refers to.
    pub closed spec fn spec_id(&self) -> HandleId {
        self.id
    }

    /// The identifier of the asset the handle refers to.
    #[verifier::when_used_as_spec(spec_id)]
    pub fn id(&self) -> (id: HandleId)
        ensures
            id == self.spec_id(),
    {
        self.id
    }

    /// A new handle to the asset `id`, with its reference signalled.
    pub fn new(id: HandleId, signals: &mut RefOpQueue) -> (handle: Self)
        ensures
            handle.id() == id,
            final(signals)@ == old(signals)@.push(RefOp::AddReference(id)),
    {
        signals.send(RefOp::AddReference(id));
        Handle { id, marker: PhantomData }
    }

    /// A new handle to the default asset, with its reference signalled.
    pub fn default(signals: &mut RefOpQueue) -> (handle: Self)
        ensures
            handle.id() == HandleId::sentinel(),
            final(signals)@ == old(signals)@.push(RefOp::AddReference(HandleId::sentinel())),
    {
        Self::new(HandleId::default(), signals)
    }

    /// What the handle is hashed by: the raw identifier, nothing of the tag.
    pub open spec fn spec_hash_key(&self) -> u64 {
        self.id().0
    }

    /// What the handle is hashed by: the raw identifier, nothing of the tag.
    /// `hash` feeds this value to the hasher and nothing else.
    #[verifier::when_used_as_spec(spec_hash_key)]
    pub fn hash_key(&self) -> (raw: u64)
        ensures
            raw == self.id().0,
    {
        self.id.0
    }

    /// The same handle under the tag `U`.
    pub closed spec fn spec_as_handle<U>(&self) -> Handle<U> {
        Handle { id: self.id, marker: PhantomData }
    }

    /// The same handle under another tag. It stands for the reference that
    /// `self` holds, so nothing is signalled and only one of the two is to be
    /// released.
    #[verifier::when_used_as_spec(spec_as_handle)]
    pub fn as_handle<U>(&self) -> (handle: Handle<U>)
        ensures
            handle == self.spec_as_handle::<U>(),
            handle.id() == self.id(),
    {
        Handle { id: self.id, marker: PhantomData }
    }

    /// A second handle to the same asset, with its reference signalled.
    pub fn clone(&self, signals: &mut RefOpQueue) -> (handle: Self)
        ensures
            handle.id() == self.id(),
            final(signals)@ == old(signals)@.push(RefOp::AddReference(self.id())),
    {
        Self::new(self.id, signals)
    }

    /// Gives the handle up and signals that its reference is gone.
    pub fn release(self, signals: &mut RefOpQueue)
        ensures
            final(signals)@ == old(signals)@.push(RefOp::RemoveReference(self.id())),
    {
        signals.send(RefOp::RemoveReference(self.id));
    }
}

impl HandleUntyped {
    /// The identifier of the asset the handle refers to.
    pub closed spec fn spec_id(&self) -> HandleId {
        self.id
    }

    /// The identifier of the asset the handle refers to.
    #[verifier::when_used_as_spec(spec_id)]
    pub fn id(&self) -> (id: HandleId)
        ensures
            id == self.spec_id(),
    {
        self.id
    }

    /// What the handle is hashed by: the raw identifier.
    pub open spec fn spec_hash_key(&self) -> u64 {
        self.id().0
    }

    /// What the handle is hashed by: the raw identifier. `hash` feeds this
    /// value to the hasher and nothing else.
    #[verifier::when_used_as_spec(spec_hash_key)]
    pub fn hash_key(&self) -> (raw: u64)
        ensures
            raw == self.id().0,
    {
        self.id.0
    }

    /// A new handle to the asset `id`, with its reference signalled.
    pub fn new(id: HandleId, signals: &mut RefOpQueue) -> (handle: Self)
        ensures
            handle.id() == id,
            final(signals)@ == old(signals)@.push(RefOp::AddReference(id)),
    {
        signals.send(RefOp::AddReference(id));
        HandleUntyped { id }
    }

    /// A new handle to the default asset, with its reference signalled.
    pub fn default(signals: &mut RefOpQueue) -> (handle: Self)
        ensures
            handle.id() == HandleId::sentinel(),
            final(signals)@ == old(signals)@.push(RefOp::AddReference(HandleId::sentinel())),
    {
        Self::new(HandleId::default(), signals)
    }

    /// A second handle to the same asset, with its reference signalled.
    pub fn clone(&self, signals: &mut RefOpQueue) -> (handle: Self)
        ensures
            handle.id() == self.id(),
            final(signals)@ == old(signals)@.push(RefOp::AddReference(self.id())),
    {
        Self::new(self.id, signals)
    }

    /// Gives the handle up and signals that its reference is gone.
    pub fn release(self, signals: &mut RefOpQueue)
        ensures
            final(signals)@ == old(signals)@.push(RefOp::RemoveReference(self.id())),
    {
        signals.send(RefOp::RemoveReference(self.id));
    }
}

impl<T> From<HandleUntyped> for Handle<T> {
    /// Tags an untyped handle. Whether the asset is a `T` is not checked.
    fn from(handle: HandleUntyped) -> (typed: Self)
        ensures
            typed.id() == handle.id(),
    {
        Handle { id: handle.id, marker: PhantomData }
    }
}

impl<T> FromSpecImpl<HandleUntyped> for Handle<T> {
    open spec fn obeys_from_spec() -> bool {
        true
    }

    closed spec fn from_spec(handle: HandleUntyped) -> Self {
        Handle { id: handle.id, marker: PhantomData }
    }
}

impl<T> From<Handle<T>> for HandleUntyped {
    /// Forgets the tag of a typed handle.
    fn from(handle: Handle<T>) -> (untyped: Self)
        ensures
            untyped.id() == handle.id(),
    {
        HandleUntyped { id: handle.id }
    }
}

impl<T> FromSpecImpl<Handle<T>> for HandleUntyped {
    open spec fn obeys_from_spec() -> bool {
        true
    }

    closed spec fn from_spec(handle: Handle<T>) -> Self {
        HandleUntyped { id: handle.id }
    }
}

impl<T> PartialEq for Handle<T> {
    /// Equal when the identifiers are.
    fn eq(&self, other: &Self) -> (r: bool) {
        self.id == other.id
    }
}

impl<T> Eq for Handle<T> {

}

impl<T> PartialEqSpecImpl for Handle<T> {
    open spec fn obeys_eq_spec() -> bool {
        true
    }

    open spec fn eq_spec(&self, other: &Self) -> bool {
        self.id() == other.id()
    }
}

impl PartialEq for HandleUntyped {
    /// Equal when the identifiers are.
    fn eq(&self, other: &Self) -> (r: bool) {
        self.id == other.id
    }
}

impl Eq for HandleUntyped {

}

impl PartialEqSpecImpl for HandleUntyped {
    open spec fn obeys_eq_spec() -> bool {
        true
    }

    open spec fn eq_spec(&self, other: &Self) -> bool {
        self.id() == other.id()
    }
}

impl<T> Hash for Handle<T> {
    /// Hashes `hash_key` and nothing else.
    fn hash<H: Hasher>(&self, state: &mut H) {
        self.hash_key().hash(state);
    }
}

impl Hash for HandleUntyped {
    /// Hashes `hash_key` and nothing else.
    fn hash<H: Hasher>(&self, state: &mut H) {
        self.hash_key().hash(state);
    }
}

/// Handles declared with different asset types and holding one identifier are
/// equal once they are brought under one tag, in either direction, and equal
/// as untyped handles; and all of them are hashed by the same key.
pub proof fn lemma_equality_ignores_tag<A, B>(a: Handle<A>, b: Handle<B>)
    requires
        a.id() == b.id(),
    ensures
        a.hash_key() == b.hash_key(),
        a.as_handle::<B>().hash_key() == b.hash_key(),
        <HandleUntyped as FromSpec<Handle<A>>>::from_spec(a).hash_key() == b.hash_key(),
        PartialEqSpec::eq_spec(&a.as_handle::<B>(), &b),
        PartialEqSpec::eq_spec(&b.as_handle::<A>(), &a),
        PartialEqSpec::eq_spec(
            &<HandleUntyped as FromSpec<Handle<A>>>::from_spec(a),
            &<HandleUntyped as FromSpec<Handle<B>>>::from_spec(b),
        ),
{
}

} // verus!
