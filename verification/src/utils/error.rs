use vstd::prelude::*;

use crate::crypt;

verus! {

/// Errors of the utility layer: date-time parsing and Base64-URL decoding,
/// plus a pass-through for cryptography errors.
#[derive(Debug, PartialEq, Eq)]
pub enum Error {
    DateTimeParseError(String),
    FailToB64uDecode,
    Crypt(crypt::Error),
}

} // verus!
