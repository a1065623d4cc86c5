//! Why a tunnel went down.

use crate::auth_failed_reason::AuthFailedReason;
use vstd::prelude::*;

verus! {

/// What made a tunnel exit, as far as it is of interest to the user.
#[derive(Clone, Copy, Debug, PartialEq, Eq, Hash, Structural)]
pub enum TunnelExitCause {
    /// Nothing worth reporting.
    NoCause,
    /// The server refused the credentials.
    AuthFailed(AuthFailedReason),
}

} // verus!
