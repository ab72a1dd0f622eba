//! Errors a write operation can end with.

use vstd::prelude::*;

verus! {

/// A failed write: transport or service trouble, throttling, a failed
/// condition check, invalid input, or a mapping fault met while decoding a
/// returned attribute map into a record.
#[derive(Clone, Debug, PartialEq, Eq)]
pub enum WriteError {
    Service(String),
    Throttling,
    ConditionalCheckFailed,
    Validation(String),
    Mapping(String),
}

} // verus!
