//! Gateway orchestration: from a token-bearing connection request to a
//! constructed session, failing fast.
//!
//! Establishment is strictly linear: authentication gates identity
//! resolution, and identity resolution gates session construction. The one
//! suspension point before the transport upgrade — the external identity
//! lookup — lives outside this crate, so establishment is split around it:
//! [`establish_start`] verifies the credential and yields the
//! [`ResolutionRequest`] the caller must look up, and [`establish_finish`]
//! consumes the store's answer and constructs the session. A failed
//! credential yields no resolution request, so no lookup and no session can
//! follow from it; a failed lookup yields no session, so nothing is ever
//! registered with the hub on a failed request.

use vstd::prelude::*;

use crate::auth::{auth_outcome, authenticate, cred_expiry, cred_id, AuthError, VerifiedAuth};
use crate::resolve::{InternalIdentity, ResolutionError};
use crate::session::{ClientSession, SessionConfig};

verus! {

/// Why the transport upgrade failed.
#[derive(Clone, Copy, Debug, PartialEq, Eq, Structural)]
pub enum UpgradeError {
    /// The transport refused the upgrade; the connection never opens.
    TransportRejected,
}

/// Why a connection request was refused before the transport was upgraded.
/// Every such failure is terminal for the request; nothing is retried.
#[derive(Clone, Copy, Debug, PartialEq, Eq, Structural)]
pub enum EstablishError {
    /// The credential was refused.
    Auth(AuthError),
    /// The external identity could not be resolved.
    Resolution(ResolutionError),
    /// The transport upgrade failed.
    Upgrade(UpgradeError),
}

/// A request that passed authentication and awaits identity resolution: the
/// verified credential and the device the connection is for.
pub struct ResolutionRequest {
    pub auth: VerifiedAuth,
    pub device_id: String,
}

/// What starting establishment yields: on success, the external identity
/// that must be resolved next; on failure, the authentication error, before
/// any lookup.
pub open spec fn start_outcome(credential: Seq<char>, key: u64, now: u64) -> Result<
    Seq<char>,
    EstablishError,
> {
    match auth_outcome(credential, key, now) {
        Ok(idexp) => Ok(idexp.0),
        Err(e) => Err(EstablishError::Auth(e)),
    }
}

/// Begin establishing a connection: verify the bearer credential under the
/// process-wide key `key` at time `now`. On success the caller must resolve
/// the returned external identity; on failure the request is over and
/// nothing was looked up.
pub fn establish_start(credential: &str, device_id: String, key: u64, now: u64) -> (r: Result<
    ResolutionRequest,
    EstablishError,
>)
    requires
        device_id@.len() > 0,
    ensures
        r is Ok <==> start_outcome(credential@, key, now) is Ok,
        r matches Ok(p) ==> p.auth.external_id@ == cred_id(credential@)
            && p.auth.expires_at as int == cred_expiry(credential@) && p.device_id@ == device_id@,
        r matches Err(e) ==> start_outcome(credential@, key, now) == Err::<
            Seq<char>,
            EstablishError,
        >(e),
{
    match authenticate(credential, key, now) {
        Ok(auth) => Ok(ResolutionRequest { auth, device_id }),
        Err(e) => Err(EstablishError::Auth(e)),
    }
}

/// What finishing establishment yields for a given lookup answer: a fresh
/// session in `Establishing` on success, and the resolver's failure kind on
/// failure — in which case no session exists, so nothing is registered with
/// the hub.
pub open spec fn finish_outcome(
    req: ResolutionRequest,
    lookup: Result<u64, ResolutionError>,
    config: SessionConfig,
) -> Result<ClientSession, EstablishError> {
    match lookup {
        Ok(uid) => Ok(
            ClientSession::spec_new(
                InternalIdentity {
                    uid,
                    external_id: req.auth.external_id,
                    device_id: req.device_id,
                },
                config,
            ),
        ),
        Err(e) => Err(EstablishError::Resolution(e)),
    }
}

/// Finish establishing a connection: consume the identity store's answer
/// `lookup` for the request's external identity. Exactly on a successful
/// lookup a session is constructed, owning the resolved identity and the
/// process-wide configuration; any resolution failure is final for the
/// request.
pub fn establish_finish(
    req: ResolutionRequest,
    lookup: Result<u64, ResolutionError>,
    config: SessionConfig,
) -> (r: Result<ClientSession, EstablishError>)
    requires
        config.wf(),
    ensures
        r == finish_outcome(req, lookup, config),
        r matches Ok(s) ==> s.wf(),
{
    match lookup {
        Ok(uid) => Ok(
            ClientSession::new(
                InternalIdentity::new(uid, req.auth.external_id, req.device_id),
                config,
            ),
        ),
        Err(e) => Err(EstablishError::Resolution(e)),
    }
}

/// The HTTP status class a pre-upgrade failure maps to: unauthorized for any
/// credential failure, the resolver's failure kind for resolution failures
/// (unknown identity versus dependency down), and a server error when the
/// transport refuses the upgrade. No internal identifier is part of the
/// mapping.
pub open spec fn spec_http_status(e: EstablishError) -> u16 {
    match e {
        EstablishError::Auth(_) => 401,
        EstablishError::Resolution(ResolutionError::NotFound) => 404,
        EstablishError::Resolution(ResolutionError::StoreUnavailable) => 503,
        EstablishError::Upgrade(_) => 500,
    }
}

/// The HTTP status code for a pre-upgrade failure.
pub fn http_status(e: &EstablishError) -> (code: u16)
    ensures
        code == spec_http_status(*e),
{
    match e {
        EstablishError::Auth(_) => 401,
        EstablishError::Resolution(ResolutionError::NotFound) => 404,
        EstablishError::Resolution(ResolutionError::StoreUnavailable) => 503,
        EstablishError::Upgrade(_) => 500,
    }
}

/// Law: an invalid credential is rejected before any identity lookup. For
/// every credential the authenticator refuses — malformed, expired or badly
/// signed — starting establishment yields exactly that authentication error
/// and no resolution request, so the identity store is never consulted and
/// no session comes into being.
pub proof fn lemma_invalid_credential_rejected(credential: Seq<char>, key: u64, now: u64)
    requires
        auth_outcome(credential, key, now) is Err,
    ensures
        start_outcome(credential, key, now) == Err::<Seq<char>, EstablishError>(
            EstablishError::Auth(auth_outcome(credential, key, now)->Err_0),
        ),
{
}

/// Law: a valid credential whose external identity has no internal mapping
/// fails establishment with the resolver's `NotFound`, and no session is
/// constructed, so none is ever registered with the hub.
pub proof fn lemma_unresolved_identity_rejected(req: ResolutionRequest, config: SessionConfig)
    ensures
        finish_outcome(req, Err(ResolutionError::NotFound), config) == Err::<
            ClientSession,
            EstablishError,
        >(EstablishError::Resolution(ResolutionError::NotFound)),
{
}

} // verus!