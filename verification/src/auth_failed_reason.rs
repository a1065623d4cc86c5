//! Why a remote server denied access.

use vstd::prelude::*;

verus! {

/// Possible reasons why a remote might deny access
#[derive(Clone, Copy, Debug, PartialEq, Eq, Hash, Structural)]
pub enum AuthFailedReason {
    /// The server sent an empty or unknown reason
    Unknown,
    /// The account does not exist
    InvalidAccountToken,
    /// The account has run out of time
    OutOfTime,
}

impl AuthFailedReason {
    /// Turns the reason string sent by the server into an
    /// `AuthFailedReason`. No reason that a server sends is told apart yet,
    /// so every input gives [`AuthFailedReason::Unknown`].
    pub fn parse(_input: Option<String>) -> (res: AuthFailedReason)
        ensures
            res == AuthFailedReason::Unknown,
    {
        AuthFailedReason::Unknown
    }
}

} // verus!
