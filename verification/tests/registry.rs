use asset_handles::registry::storage_outcome;
use asset_handles::AssetRegistration;
use asset_handles::AssetTypeId;
use asset_handles::AssetTypeRegistry;
use asset_handles::RegistryError;
use std::cell::Cell;
use std::collections::HashMap;

const MESH: AssetTypeId = AssetTypeId(0x8ecbac0f_f545_4473_ad43_e1f4243af51e);
const TEXTURE: AssetTypeId = AssetTypeId(0x3bf7e7f9_1c30_4c4e_9a0b_2a5d5f1b0c11);
const SHADER: AssetTypeId = AssetTypeId(0xd95bc916_6c55_4de3_9622_37e7b6969fda);

/// The context of these tests: the storages that are present, by name.
type Context = HashMap<&'static str, Vec<u32>>;

type Fetch = fn(&Context, &mut dyn FnMut(&Vec<u32>)) -> Option<()>;

fn fetch_meshes(context: &Context, operation: &mut dyn FnMut(&Vec<u32>)) -> Option<()> {
    let storage = context.get("meshes")?;
    operation(storage);
    Some(())
}

fn fetch_textures(context: &Context, operation: &mut dyn FnMut(&Vec<u32>)) -> Option<()> {
    let storage = context.get("textures")?;
    operation(storage);
    Some(())
}

fn full_context() -> Context {
    let mut context = Context::new();
    context.insert("meshes", vec![1, 2, 3]);
    context.insert("textures", vec![10, 20]);
    context
}

fn registry_of_two() -> AssetTypeRegistry<Fetch> {
    let mut registry: AssetTypeRegistry<Fetch> = AssetTypeRegistry::new();
    registry.register(MESH, fetch_meshes);
    registry.register(TEXTURE, fetch_textures);
    registry
}

#[test]
fn registration_holds_what_it_was_made_of() {
    let registration = AssetRegistration::of(MESH, 5u8);
    assert_eq!(registration.ty, MESH);
    assert_eq!(registration.get_assets_storage_fn, 5u8);
}

#[test]
fn empty_registry_knows_no_type() {
    let registry: AssetTypeRegistry<Fetch> = AssetTypeRegistry::default();
    assert!(!registry.is_registered(MESH));
    assert!(matches!(
        registry.get_registration(MESH),
        Err(RegistryError::UnregisteredAssetType)
    ));
}

#[test]
fn registered_type_reaches_its_own_storage_on_every_call() {
    let registry = registry_of_two();
    let context = full_context();
    for _ in 0..3 {
        let mut seen = Vec::new();
        let outcome = registry.get_storage(MESH, &context, &mut |storage: &Vec<u32>| {
            seen = storage.clone();
        });
        assert_eq!(outcome, Ok(()));
        assert_eq!(seen, vec![1, 2, 3]);
        let mut seen = Vec::new();
        let outcome = registry.get_storage(TEXTURE, &context, &mut |storage: &Vec<u32>| {
            seen = storage.clone();
        });
        assert_eq!(outcome, Ok(()));
        assert_eq!(seen, vec![10, 20]);
    }
}

#[test]
fn unregistered_type_is_refused_and_operation_not_called() {
    let registry = registry_of_two();
    let context = full_context();
    let calls = Cell::new(0u32);
    let outcome = registry.get_storage(SHADER, &context, &mut |_storage: &Vec<u32>| {
        calls.set(calls.get() + 1);
    });
    assert_eq!(outcome, Err(RegistryError::UnregisteredAssetType));
    assert_eq!(calls.get(), 0);
    assert!(!registry.is_registered(SHADER));
    assert!(registry.is_registered(MESH));
    assert!(registry.is_registered(TEXTURE));
}

#[test]
fn missing_storage_is_reported_and_operation_not_called() {
    let registry = registry_of_two();
    let mut context = Context::new();
    context.insert("meshes", vec![4]);
    let calls = Cell::new(0u32);
    let outcome = registry.get_storage(TEXTURE, &context, &mut |_storage: &Vec<u32>| {
        calls.set(calls.get() + 1);
    });
    assert_eq!(outcome, Err(RegistryError::StorageUnavailable));
    assert_eq!(calls.get(), 0);
    let outcome = registry.get_storage(MESH, &context, &mut |_storage: &Vec<u32>| {
        calls.set(calls.get() + 1);
    });
    assert_eq!(outcome, Ok(()));
    assert_eq!(calls.get(), 1);
}

#[test]
fn registering_again_replaces_the_function() {
    let mut registry = registry_of_two();
    registry.register(MESH, fetch_textures);
    let context = full_context();
    let mut seen = Vec::new();
    let outcome = registry.get_storage(MESH, &context, &mut |storage: &Vec<u32>| {
        seen = storage.clone();
    });
    assert_eq!(outcome, Ok(()));
    assert_eq!(seen, vec![10, 20]);
    let found = registry.get_registration(MESH);
    assert!(matches!(found, Ok(registration) if registration.ty == MESH));
    let mut seen = Vec::new();
    let outcome = registry.get_storage(TEXTURE, &context, &mut |storage: &Vec<u32>| {
        seen = storage.clone();
    });
    assert_eq!(outcome, Ok(()));
    assert_eq!(seen, vec![10, 20]);
}

#[test]
fn registering_the_same_function_again_changes_nothing() {
    let mut registry = registry_of_two();
    registry.register(MESH, fetch_meshes);
    registry.register(MESH, fetch_meshes);
    let context = full_context();
    let calls = Cell::new(0u32);
    let mut seen = Vec::new();
    let outcome = registry.get_storage(MESH, &context, &mut |storage: &Vec<u32>| {
        calls.set(calls.get() + 1);
        seen = storage.clone();
    });
    assert_eq!(outcome, Ok(()));
    assert_eq!(calls.get(), 1);
    assert_eq!(seen, vec![1, 2, 3]);
    assert!(registry.is_registered(TEXTURE));
    assert!(!registry.is_registered(SHADER));
}

#[test]
fn last_registered_value_is_the_one_kept() {
    let mut registry = AssetTypeRegistry::new();
    registry.register(MESH, 10u8);
    registry.register(MESH, 20u8);
    let found = registry.get_registration(MESH);
    assert!(matches!(found, Ok(registration) if registration.get_assets_storage_fn == 20));
}

#[test]
fn fetch_result_becomes_lookup_outcome() {
    assert_eq!(storage_outcome(Some(7u8)), Ok(7u8));
    assert_eq!(storage_outcome(None::<u8>), Err(RegistryError::StorageUnavailable));
}

#[test]
fn lookup_hands_back_what_the_operation_computed() {
    let mut registry = AssetTypeRegistry::new();
    registry.register(MESH, |context: &Vec<u32>, scale: u32| {
        context.first().map(|value| value * scale)
    });
    assert_eq!(registry.get_storage(MESH, &vec![6, 1], 7), Ok(42));
    assert_eq!(
        registry.get_storage(MESH, &Vec::new(), 7),
        Err(RegistryError::StorageUnavailable)
    );
    assert_eq!(
        registry.get_storage(TEXTURE, &vec![6, 1], 7),
        Err(RegistryError::UnregisteredAssetType)
    );
}
