//! Identity resolution: the mapping from the external (string) identity named
//! by a verified credential to the internal (numeric) identity the rest of
//! the system uses.
//!
//! The lookup itself is performed by an external identity store; this module
//! holds the identity types and the failure kinds that lookup can yield. The
//! gateway consumes the store's answer through
//! [`crate::gateway::establish_finish`], which is verified for every possible
//! answer.

use vstd::prelude::*;

verus! {

/// Why an external identity could not be resolved to an internal one.
#[derive(Clone, Copy, Debug, PartialEq, Eq, Structural)]
pub enum ResolutionError {
    /// The identity has no corresponding internal account.
    NotFound,
    /// The identity store did not answer.
    StoreUnavailable,
}

/// The internal identity of one (user, device) connection: the numeric
/// identity the system uses, together with the external identity and the
/// device it was resolved for.
pub struct InternalIdentity {
    pub uid: u64,
    pub external_id: String,
    pub device_id: String,
}

impl InternalIdentity {
    /// Pair the resolved numeric identity with the external identity and
    /// device it belongs to.
    pub fn new(uid: u64, external_id: String, device_id: String) -> (r: InternalIdentity)
        ensures
            r.uid == uid,
            r.external_id == external_id,
            r.device_id == device_id,
    {
        InternalIdentity { uid, external_id, device_id }
    }
}

} // verus!
