//! A registry for callback handlers of varying arity.
//!
//! Callers register callbacks taking between zero and twelve arguments of one
//! element type, receive an owning handle back, and later dispatch one batch of
//! parameter lists against every handler whose owner still holds its handle.
//! Dropping the handle is the sole way to deregister: the registry keeps only
//! weak references and discovers dead entries lazily, at dispatch time.

mod errors;
mod handler;
mod manager;
mod params;
mod slot;

pub use errors::decimal_of;
pub use errors::DispatchError;
pub use handler::CallbackHandler;
pub use manager::entry_arities;
pub use manager::lemma_no_mismatches;
pub use manager::num_mismatches;
pub use manager::subsequence_of;
pub use manager::CallbackManager;
pub use manager::RegistryEntry;
pub use params::CallbackParams;
pub use slot::HandlerHandle;
pub use slot::WeakHandle;
