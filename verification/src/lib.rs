//! A typed convenience layer over a string key-value store: a lazy persistent
//! cell (`StorageData`) that loads a value under a fixed key on first access,
//! caches it, tracks whether it may have diverged from the store, and persists
//! it back on request or when its owner is done with it.
//!
//! The cell mediates between two collaborators: a backing [`store::Store`]
//! (one entry per string key, fallible on every call) and a [`codec::Codec`]
//! (a fallible value-to-string and string-to-value pair).

pub mod codec;
pub mod decimal;
pub mod errors;
pub mod serdes;
pub mod storage;
pub mod store;

pub use codec::Codec;
pub use codec::StringCodec;
pub use decimal::DecimalCodec;
pub use errors::StorageError;
pub use serdes::BincodeCodec;
pub use serdes::CborCodec;
pub use serdes::JsonCodec;
pub use serdes::RonCodec;
pub use serdes::YamlCodec;
pub use storage::get_data_with;
pub use storage::set_data;
pub use storage::StorageData;
pub use store::StorageKind;
pub use store::Store;
pub use store::Stores;
