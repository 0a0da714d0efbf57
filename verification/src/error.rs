//! The failures that an entry point can report.

use vstd::prelude::*;

verus! {

/// Why a call was rejected. A rejected call changes nothing and records no
/// event; the variant that an inner step reports reaches the caller unchanged.
#[derive(Clone, Copy, Debug, PartialEq, Eq, Structural)]
pub enum Error {
    /// The account is not the owner of the token. The entry points of this
    /// crate report `NotAllowed` in its place.
    NotOwner,
    /// The account holds no approval for the token. The entry points of
    /// this crate report `NotAllowed` in its place.
    NotApproved,
    /// The token to be minted has an owner already.
    TokenExists,
    /// The token to be moved has no owner.
    TokenNotFound,
    /// The caller has no right to the operation, or the account that the
    /// operation names is the reserved identifier.
    NotAllowed,
    /// A token count or an identifier counter cannot be stepped any further.
    CannotFetchValue,
    /// The requester holds no access permission, or is not the
    /// administrator where one alone may grant permissions.
    PermissionDenied,
}

} // verus!
