use vstd::prelude::*;

use crate::error::{IoKind, PersistError};

verus! {

/// The value held after a load, and the load's result, given the value held
/// before and what was decoded from the location.
pub open spec fn load_effect<T>(before: T, loaded: Result<T, PersistError>) -> (T, Result<(), PersistError>) {
    match loaded {
        Ok(v) => (v, Ok(())),
        Err(e) => (before, Err(e)),
    }
}

/// A load keeps nothing of the value held before: whatever two values were
/// held, loading the same content leaves them equal, and loading different
/// content leaves them different. A failed load keeps the value held.
pub proof fn lemma_load_replaces<T>(a: T, b: T, va: T, vb: T, e: PersistError)
    ensures
        load_effect(a, Ok(va)).0 == va,
        (load_effect(a, Ok(va)).0 == load_effect(b, Ok(vb)).0) <==> va == vb,
        load_effect(a, Err(e)) == (a, Err::<(), PersistError>(e)),
{
}

/// Replaces `*data` with the loaded value, or keeps it and reports the error.
pub fn replace_on_success<T>(data: &mut T, loaded: Result<T, PersistError>) -> (r: Result<(), PersistError>)
    ensures
        (*final(data), r) == load_effect(*old(data), loaded),
{
    match loaded {
        Ok(v) => {
            *data = v;
            Ok(())
        },
        Err(e) => Err(e),
    }
}

/// Maps the result of writing a location to the result of a persist.
pub fn write_outcome(written: Result<(), IoKind>) -> (r: Result<(), PersistError>)
    ensures
        r == match written {
            Ok(()) => Ok::<(), PersistError>(()),
            Err(k) => Err(PersistError::Io(k)),
        },
{
    match written {
        Ok(()) => Ok(()),
        Err(k) => Err(PersistError::Io(k)),
    }
}

} // verus!
