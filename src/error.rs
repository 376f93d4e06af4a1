use vstd::prelude::*;

verus! {

/// Every way an operation of this library can fail.
#[derive(Debug, Clone, Copy, PartialEq, Eq, Structural)]
pub enum Error {
    /// The request carried no session token; nothing was sent to the store.
    MissingToken,
    /// The store refused the forwarded session token.
    AuthenticationRejected,
    /// No record (or no note entry) answers the given address.
    NotFound,
    /// A request value could not be read as one of the closed enumerations.
    Validation,
    /// The store or its transport failed.
    Store,
}

} // verus!
