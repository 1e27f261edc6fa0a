use vstd::prelude::*;

verus! {

/// Used to persist a value.
pub trait Persist: core::marker::Sized {
    /// The error type that will be returned.
    type Error;

    /// The configuration that holds what is needed to persist the data.
    type Config;

    /// Saves the data so that it persists.
    fn persist(&self) -> Result<(), Self::Error>;

    /// Loads the data, if any exists.
    fn load(&mut self) -> Result<(), Self::Error>;
}

} // verus!
