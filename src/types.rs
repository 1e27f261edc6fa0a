use vstd::prelude::*;

use crate::codec::{decode_json, encode_json};
use crate::error::{IoKind, PersistError};
use crate::outcome::{load_effect, replace_on_success};

verus! {

#[verifier::external_type_specification]
#[verifier::external_body]
pub struct ExPathBuf(std::path::PathBuf);

/// Relies on PathBuf's Clone, which copies the path; used by the derived
/// Clone of the value types.
pub assume_specification[ <std::path::PathBuf as core::clone::Clone>::clone ](p: &std::path::PathBuf) -> std::path::PathBuf;

/// A value that persists as JSON at a path.
#[derive(Debug, Clone, Default)]
pub struct JsonPersist<T> {
    pub data: T,
    pub config: std::path::PathBuf,
}

impl<T> JsonPersist<T> {
    pub fn new(data: T, config: std::path::PathBuf) -> (r: Self)
        ensures
            r.data == data,
            r.config == config,
    {
        JsonPersist { data, config }
    }

    /// The path that the value is bound to.
    pub fn config(&self) -> (r: &std::path::PathBuf)
        ensures
            *r == self.config,
    {
        &self.config
    }

    /// The held value.
    pub fn get(&self) -> (r: &T)
        ensures
            *r == self.data,
    {
        &self.data
    }

    /// The held value, to be changed in place.
    pub fn get_mut(&mut self) -> (r: &mut T)
        ensures
            *r == old(self).data,
            final(self).data == *final(r),
            final(self).config == old(self).config,
    {
        &mut self.data
    }

    /// Takes in a value decoded from the location: on success it replaces the
    /// held value, on failure the held value stays and the error is returned.
    pub fn apply_load(&mut self, loaded: Result<T, PersistError>) -> (r: Result<(), PersistError>)
        ensures
            (final(self).data, r) == load_effect(old(self).data, loaded),
            final(self).config == old(self).config,
    {
        replace_on_success(&mut self.data, loaded)
    }
}

impl<T: serde::Serialize> JsonPersist<T> {
    /// The JSON text that persisting writes to the location.
    pub fn encode(&self) -> (r: Result<String, PersistError>)
        ensures
            r is Err ==> r->Err_0 is Encode,
    {
        encode_json(&self.data)
    }
}

impl<T: serde::de::DeserializeOwned> JsonPersist<T> {
    /// Loads from what reading the location gave.
    ///
    /// A failed read is an I/O error; text that does not decode is a decoding
    /// error. Either way the held value is left unchanged.
    pub fn load_json(&mut self, read: Result<String, IoKind>) -> (r: Result<(), PersistError>)
        ensures
            final(self).config == old(self).config,
            read is Err ==> r == Err::<(), PersistError>(PersistError::Io(read->Err_0)),
            r is Err ==> final(self).data == old(self).data,
            read is Ok && r is Err ==> r->Err_0 is Decode,
    {
        match read {
            Err(k) => Err(PersistError::Io(k)),
            Ok(text) => {
                let decoded = decode_json(text.as_str());
                self.apply_load(decoded)
            },
        }
    }
}

} // verus!
