use vstd::prelude::*;

verus! {

/// The errors that an operation of the mediator can end in.
#[derive(Debug, Clone, Copy, PartialEq, Eq, Structural)]
pub enum PointercrateError {
    /// The pool could not hand out a connection.
    DatabaseConnectionError,
    /// Any failure to authenticate; the reason is never told apart.
    Unauthorized,
    /// The object that an operation targets does not exist.
    ModelNotFound,
    /// The caller's version marker does not match the object's current version.
    PreconditionFailed,
    /// The input was refused by the resource's own validation.
    InvalidInput,
    /// Any other failure of the store.
    DatabaseError,
}

} // verus!
