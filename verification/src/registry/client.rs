//! What a caller inside the process sees of the service: its results, with its
//! errors as the registry's public ones.
use vstd::prelude::*;
use crate::registry::error::{DomainError, ModelRegistryError};

verus! {

/// The result of an operation as a caller sees it.
pub fn client_result<T>(result: Result<T, DomainError>) -> (r: Result<T, ModelRegistryError>)
    ensures
        match result {
            Ok(value) => r == Ok::<T, ModelRegistryError>(value),
            Err(e) => r matches Err(s) && s@ == e@.to_sdk(),
        },
{
    match result {
        Ok(value) => Ok(value),
        Err(e) => Err(ModelRegistryError::from(e)),
    }
}

} // verus!
