//! Typed asset handles, an asset type registry, and mesh buffers.
//!
//! A handle is a plain identifier value, optionally tagged at compile time
//! with the type of asset it refers to. Every handle that comes into being
//! or is released is recorded as an ownership signal for the asset's owner,
//! who keeps the counts. The registry leads from the identifier of an asset
//! type to the function that reaches the storage of that type. A mesh packs
//! its attributes into the bytes of a vertex buffer.
pub mod handle;
pub mod handle_id;
pub mod mesh;
pub mod ref_op;
pub mod registry;

pub use handle::Handle;
pub use handle::HandleUntyped;
pub use handle_id::AtomicHandleAllocator;
pub use handle_id::HandleAllocator;
pub use handle_id::HandleId;
pub use handle_id::DEFAULT_HANDLE_ID;
pub use handle_id::FIRST_HANDLE_ID;
pub use ref_op::RefOp;
pub use ref_op::RefOpQueue;
pub use registry::AssetRegistration;
pub use registry::AssetTypeId;
pub use registry::AssetTypeRegistry;
pub use registry::RegistryError;
