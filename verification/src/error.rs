use vstd::prelude::*;

verus! {

/// The kinds of failure a service request can end in.
#[derive(Clone, Copy, Debug, PartialEq, Eq, Structural)]
pub enum ErrorKind {
    /// The requested key (or other value) is not in the store.
    MissingValue,
    /// The request names an encryption type that does not exist.
    InvalidInputError,
    /// A freshly drawn identifier is already taken.
    UUIDError,
    /// The caller's credential was not accepted.
    PermissionDenied,
}

} // verus!
