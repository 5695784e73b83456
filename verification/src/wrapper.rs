//! The rules of the wrapping API for optional parts of a library's API.
use vstd::prelude::*;
use crate::err::Error;

verus! {

/// What an optional API becomes once loading it was tried: the API where it
/// loaded, else nothing (`WrapperOptional::open`). Loading one never fails.
pub fn optional_part<T>(loaded: Result<T, Error>) -> (r: Option<T>)
    ensures
        match loaded {
            Ok(v) => r == Some(v),
            Err(_) => r is None,
        },
{
    match loaded {
        Ok(val) => Some(val),
        Err(_) => None,
    }
}

/// Loading an API declared as an `Option` (`WrapperApi` for `Option<T>`): it
/// always succeeds, with the API where it loaded and with nothing where not.
pub fn load_optional<T>(loaded: Result<T, Error>) -> (r: Result<Option<T>, Error>)
    ensures
        match loaded {
            Ok(v) => r == Ok::<Option<T>, Error>(Some(v)),
            Err(_) => r == Ok::<Option<T>, Error>(None),
        },
{
    Ok(optional_part(loaded))
}

} // verus!
