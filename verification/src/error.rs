//! The local error taxonomy that remote-store failures are mapped into.

use vstd::prelude::*;

verus! {

/// Why a status operation failed.  No operation retries internally;
/// retry policy belongs to the caller.
pub enum StatusError {
    /// The store client or its configuration could not be constructed;
    /// fatal to the whole client.
    StoreUnavailable,
    /// The record is absent; surfaced to the caller, not retried.
    NotFound,
    /// The patch or get call returned a non-success response; the
    /// store's message is carried along.
    RemoteRejected(String),
    /// An update was invoked on an artifact missing required resolved
    /// fields: a programming error, surfaced fast.
    PreconditionViolated,
}

/// Map a remote response into the local taxonomy: an absent record is
/// `NotFound`, any other rejection carries the store's message.
pub fn classify_store_error(code: Option<u16>, message: String) -> (e: StatusError)
    ensures
        code == Some(404u16) ==> e is NotFound,
        code != Some(404u16) ==> (e matches StatusError::RemoteRejected(m) && m@ == message@),
{
    match code {
        Some(c) => {
            if c == 404 {
                StatusError::NotFound
            } else {
                StatusError::RemoteRejected(message)
            }
        },
        None => StatusError::RemoteRejected(message),
    }
}

/// The fail-fast gate before any patch is attempted: the bound artifact
/// must carry a resolved version and no pending secret placeholders.
pub fn check_ready(version_resolved: bool, secrets_resolved: bool) -> (r: Result<
    (),
    StatusError,
>)
    ensures
        r is Ok <==> version_resolved && secrets_resolved,
        r matches Err(e) ==> e is PreconditionViolated,
{
    if version_resolved && secrets_resolved {
        Ok(())
    } else {
        Err(StatusError::PreconditionViolated)
    }
}

} // verus!
