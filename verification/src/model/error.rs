use vstd::prelude::*;

verus! {

/// Errors of the model layer.  `EntityNotFound` is the one not-found
/// vocabulary shared by get, update and delete across every entity type;
/// `UsernameAlreadyExists` is the store's uniqueness guarantee on user
/// names.
#[derive(Debug)]
pub enum Error {
    EntityNotFound { entity: &'static str, id: i64 },
    UsernameAlreadyExists,
}

} // verus!
