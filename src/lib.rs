//! Persistence of in-memory values to a JSON-encoded location.
//!
//! The library holds the decisions of persisting and loading: what is
//! encoded, which failure becomes which error, when the in-memory value is
//! replaced and when it is kept, and the schedule of interval persistence.
//! Reading and writing the location itself is done by the caller, who hands
//! the outcome of each step back to the library.
pub mod codec;
pub mod error;
pub mod outcome;
pub mod persist;
pub mod schedule;
pub mod structs;
pub mod types;

pub use error::{IoKind, JsonCategory, PersistError};
pub use persist::Persist;
pub use structs::JsonPreserve;
pub use types::JsonPersist;
