//! The asset type registry: from the identifier of an asset type to the
//! function that reaches the storage of that type.
//!
//! The registry never looks inside a fetch function. It keeps the function
//! it was last given for a type and calls that same function on every lookup.
use std::collections::HashMap;
use vstd::prelude::*;

verus! {

/// The identifier of an asset type, assigned by the type's author.
#[derive(Debug, Clone, Copy, PartialEq, Eq, Hash, Structural)]
pub struct AssetTypeId(pub u128);

/// Why a lookup in the registry gave no storage.
#[derive(Debug, Clone, Copy, PartialEq, Eq, Structural)]
pub enum RegistryError {
    /// The type identifier was never registered.
    UnregisteredAssetType,
    /// The type is registered, but its storage is not in the context.
    StorageUnavailable,
}

/// What the registry holds for one asset type.
///
/// `get_assets_storage_fn` takes a context and an operation, finds the
/// storage of the asset type in the context and runs the operation on it. It
/// returns `None` when the context holds no such storage.
pub struct AssetRegistration<F> {
    pub ty: AssetTypeId,
    pub get_assets_storage_fn: F,
}

impl<F> AssetRegistration<F> {
    /// The registration of the asset type `ty` with its fetch function.
    pub fn of(ty: AssetTypeId, fetch: F) -> (registration: Self)
        ensures
            registration == (AssetRegistration { ty, get_assets_storage_fn: fetch }),
    {
        AssetRegistration { ty, get_assets_storage_fn: fetch }
    }
}

/// The directory after `ty` is registered with `fetch`: `ty` leads to
/// `fetch`, whatever it led to before, and every other identifier is as it
/// was.
pub open spec fn with_registration<F>(
    directory: Map<AssetTypeId, F>,
    ty: AssetTypeId,
    fetch: F,
) -> Map<AssetTypeId, F> {
    directory.insert(ty, fetch)
}

/// Whether `outcome` is what a lookup of `ty` in `directory` may give for the
/// context and the operation: the error `UnregisteredAssetType` exactly when
/// `ty` is not in the directory, and otherwise what the function registered
/// for `ty` gave, with `None` reported as `StorageUnavailable`.
pub open spec fn is_lookup_outcome<F, C, Op, R>(
    directory: Map<AssetTypeId, F>,
    ty: AssetTypeId,
    context: &C,
    operation: Op,
    outcome: Result<R, RegistryError>,
) -> bool where F: Fn(&C, Op) -> Option<R> {
    if !directory.contains_key(ty) {
        outcome == Err::<R, RegistryError>(RegistryError::UnregisteredAssetType)
    } else {
        match outcome {
            Ok(value) => call_ensures(directory[ty], (context, operation), Some(value)),
            Err(error) => error == RegistryError::StorageUnavailable && call_ensures(
                directory[ty],
                (context, operation),
                None::<R>,
            ),
        }
    }
}

/// The directory of all registered asset types.
pub struct AssetTypeRegistry<F> {
    registrations: HashMap<u128, AssetRegistration<F>>,
}

impl<F> View for AssetTypeRegistry<F> {
    type V = Map<AssetTypeId, F>;

    /// The fetch function of every registered type identifier.
    closed spec fn view(&self) -> Map<AssetTypeId, F> {
        Map::new(
            |ty: AssetTypeId| self.registrations@.contains_key(ty.0),
            |ty: AssetTypeId| self.registrations@[ty.0].get_assets_storage_fn,
        )
    }
}

impl<F> AssetTypeRegistry<F> {
    /// Every registration is filed under the type identifier it names.
    pub closed spec fn wf(&self) -> bool {
        forall|key: u128| #[trigger]
            self.registrations@.contains_key(key) ==> self.registrations@[key].ty
                == AssetTypeId(key)
    }

    /// A registry with no asset type in it.
    pub fn new() -> (registry: Self)
        ensures
            registry.wf(),
            registry@ == Map::<AssetTypeId, F>::empty(),
    {
        let registry = AssetTypeRegistry { registrations: HashMap::new() };
        assert(registry@ =~= Map::<AssetTypeId, F>::empty());
        registry
    }

    /// Registers the asset type `ty` with its fetch function. A function
    /// that was registered for `ty` before is replaced.
    pub fn register(&mut self, ty: AssetTypeId, fetch: F)
        requires
            old(self).wf(),
        ensures
            final(self).wf(),
            final(self)@ == old(self)@.insert(ty, fetch),
            final(self)@ == with_registration(old(self)@, ty, fetch),
    {
        self.registrations.insert(ty.0, AssetRegistration::of(ty, fetch));
        assert(self@ =~= old(self)@.insert(ty, fetch));
    }

    /// Whether the asset type `ty` is registered.
    pub fn is_registered(&self, ty: AssetTypeId) -> (found: bool)
        ensures
            found == self@.contains_key(ty),
    {
        self.registrations.contains_key(&ty.0)
    }

    /// The registration of the asset type `ty`.
    pub fn get_registration(&self, ty: AssetTypeId) -> (found: Result<
        &AssetRegistration<F>,
        RegistryError,
    >)
        requires
            self.wf(),
        ensures
            match found {
                Ok(registration) => self@.contains_key(ty) && registration.ty == ty
                    && registration.get_assets_storage_fn == self@[ty],
                Err(error) => !self@.contains_key(ty) && error
                    == RegistryError::UnregisteredAssetType,
            },
    {
        match self.registrations.get(&ty.0) {
            Some(registration) => Ok(registration),
            None => Err(RegistryError::UnregisteredAssetType),
        }
    }

    /// Runs `operation` on the storage of the asset type `ty`, through the
    /// fetch function the type was registered with. Nothing is called when
    /// the type is not registered.
    pub fn get_storage<C, Op, R>(&self, ty: AssetTypeId, context: &C, operation: Op) -> (outcome:
        Result<R, RegistryError>) where F: Fn(&C, Op) -> Option<R>
        requires
            self.wf(),
            self@.contains_key(ty) ==> call_requires(self@[ty], (context, operation)),
        ensures
            is_lookup_outcome(self@, ty, context, operation, outcome),
    {
        match self.get_registration(ty) {
            Err(error) => Err(error),
            Ok(registration) => storage_outcome(
                (registration.get_assets_storage_fn)(context, operation),
            ),
        }
    }
}

impl<F> Default for AssetTypeRegistry<F> {
    /// A registry with no asset type in it.
    fn default() -> (registry: Self)
        ensures
            registry.wf(),
            registry@ == Map::<AssetTypeId, F>::empty(),
    {
        AssetTypeRegistry::new()
    }
}

/// What a lookup reports for what the fetch function of a registered type
/// returned: the value, or `StorageUnavailable` for `None`.
pub fn storage_outcome<R>(fetched: Option<R>) -> (outcome: Result<R, RegistryError>)
    ensures
        outcome == match fetched {
            Some(value) => Ok::<R, RegistryError>(value),
            None => Err::<R, RegistryError>(RegistryError::StorageUnavailable),
        },
{
    match fetched {
        Some(value) => Ok(value),
        None => Err(RegistryError::StorageUnavailable),
    }
}

/// Once a type is registered, every lookup of it goes to the function it was
/// registered with: the directory holds that function for it, whatever was
/// there before, a lookup never reports it as unregistered, and registering
/// it with the same function again changes nothing.
pub proof fn lemma_registered_type_is_found<F, C, Op, R>(
    directory: Map<AssetTypeId, F>,
    ty: AssetTypeId,
    fetch: F,
    context: &C,
    operation: Op,
    outcome: Result<R, RegistryError>,
) where F: Fn(&C, Op) -> Option<R>
    requires
        is_lookup_outcome(with_registration(directory, ty, fetch), ty, context, operation, outcome),
    ensures
        with_registration(directory, ty, fetch).contains_key(ty),
        with_registration(directory, ty, fetch)[ty] == fetch,
        outcome != Err::<R, RegistryError>(RegistryError::UnregisteredAssetType),
        match outcome {
            Ok(value) => call_ensures(fetch, (context, operation), Some(value)),
            Err(error) => error == RegistryError::StorageUnavailable && call_ensures(
                fetch,
                (context, operation),
                None::<R>,
            ),
        },
        with_registration(with_registration(directory, ty, fetch), ty, fetch) == with_registration(
            directory,
            ty,
            fetch,
        ),
{
    assert(with_registration(with_registration(directory, ty, fetch), ty, fetch)
        =~= with_registration(directory, ty, fetch));
}

/// Registering a type leaves every other type as it was: what a lookup of
/// another identifier may give is the same before and after.
pub proof fn lemma_other_types_untouched<F, C, Op, R>(
    directory: Map<AssetTypeId, F>,
    ty: AssetTypeId,
    fetch: F,
    other: AssetTypeId,
    context: &C,
    operation: Op,
    outcome: Result<R, RegistryError>,
) where F: Fn(&C, Op) -> Option<R>
    requires
        other != ty,
    ensures
        with_registration(directory, ty, fetch).contains_key(other) == directory.contains_key(
            other,
        ),
        directory.contains_key(other) ==> with_registration(directory, ty, fetch)[other]
            == directory[other],
        is_lookup_outcome(with_registration(directory, ty, fetch), other, context, operation, outcome)
            == is_lookup_outcome(directory, other, context, operation, outcome),
{
}

/// A lookup of a type that is not registered gives `UnregisteredAssetType`
/// and nothing else, whatever the context and the operation are.
pub proof fn lemma_unregistered_type_is_refused<F, C, Op, R>(
    directory: Map<AssetTypeId, F>,
    ty: AssetTypeId,
    context: &C,
    operation: Op,
    outcome: Result<R, RegistryError>,
) where F: Fn(&C, Op) -> Option<R>
    requires
        !directory.contains_key(ty),
    ensures
        is_lookup_outcome(directory, ty, context, operation, outcome) <==> outcome == Err::<
            R,
            RegistryError,
        >(RegistryError::UnregisteredAssetType),
{
}

} // verus!
