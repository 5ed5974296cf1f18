//! A minimal persistent key-value store with single-owner write access.
//!
//! The contract state holds an owner account, immutable metadata, and a
//! string-to-string mapping. It is designed to run inside an execution host
//! that supplies the call context (signer, immediate caller, attached
//! payment, timestamp), durable storage, and atomic call semantics; the host
//! hands every method an explicit [`context::CallContext`] value, and every
//! log line a method emits is returned to the host as a plain `String`.

pub mod context;
pub mod decimal;
pub mod error;
pub mod instance;
pub mod kv;
pub mod laws;
pub mod state;
pub mod text;

pub use context::CallContext;
pub use error::ContractError;
pub use instance::ContractInstance;
pub use state::{ContractMetadata, Hello};
