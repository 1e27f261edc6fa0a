use vstd::prelude::*;

use crate::codec::{decode_json, encode_json};
use crate::error::{IoKind, PersistError};
use crate::outcome::{load_effect, replace_on_success};

verus! {

/// A value that persists as JSON at a path fixed when it is made.
#[derive(Debug)]
pub struct JsonPreserve<T> {
    pub data: T,
    config: std::path::PathBuf,
}

impl<T> JsonPreserve<T> {
    /// The held value.
    pub closed spec fn value(&self) -> T {
        self.data
    }

    /// The path that the value is bound to.
    pub closed spec fn location(&self) -> std::path::PathBuf {
        self.config
    }

    pub fn new(data: T, config: std::path::PathBuf) -> (r: Self)
        ensures
            r.value() == data,
            r.location() == config,
    {
        JsonPreserve { data, config }
    }

    /// The path that the value is bound to.
    pub fn config(&self) -> (r: &std::path::PathBuf)
        ensures
            *r == self.location(),
    {
        &self.config
    }

    /// The held value.
    pub fn get(&self) -> (r: &T)
        ensures
            *r == self.value(),
    {
        &self.data
    }

    /// The held value, to be changed in place.
    pub fn get_mut(&mut self) -> (r: &mut T)
        ensures
            *r == old(self).value(),
            final(self).value() == *final(r),
            final(self).location() == old(self).location(),
    {
        &mut self.data
    }

    /// Takes in a value decoded from the location: on success it replaces the
    /// held value, on failure the held value stays and the error is returned.
    pub fn apply_load(&mut self, loaded: Result<T, PersistError>) -> (r: Result<(), PersistError>)
        ensures
            (final(self).value(), r) == load_effect(old(self).value(), loaded),
            final(self).location() == old(self).location(),
    {
        replace_on_success(&mut self.data, loaded)
    }
}

impl<T: serde::Serialize> JsonPreserve<T> {
    /// The JSON text that persisting writes to the location.
    pub fn encode(&self) -> (r: Result<String, PersistError>)
        ensures
            r is Err ==> r->Err_0 is Encode,
    {
        encode_json(&self.data)
    }
}

impl<T: serde::de::DeserializeOwned> JsonPreserve<T> {
    /// Loads from what reading the location gave.
    ///
    /// A failed read is an I/O error; text that does not decode is a decoding
    /// error. Either way the held value is left unchanged.
    pub fn load_json(&mut self, read: Result<String, IoKind>) -> (r: Result<(), PersistError>)
        ensures
            final(self).location() == old(self).location(),
            read is Err ==> r == Err::<(), PersistError>(PersistError::Io(read->Err_0)),
            r is Err ==> final(self).value() == old(self).value(),
            read is Ok && r is Err ==> r->Err_0 is Decode,
    {
        match read {
            Err(k) => Err(PersistError::Io(k)),
            Ok(text) => {
                let decoded = decode_json(text.as_str());
                self.apply_load(decoded)
            },
        }
    }
}

} // verus!
