//! The two fixed raw-text endpoints and the error messages a failed fetch
//! surfaces.
//!
//! Besides health probes, two well-known services expose endpoints whose
//! body is passed through to the caller unparsed: the status endpoint on
//! port 9999 and the consciousness endpoint on port 9998. A transport
//! failure while fetching either is surfaced as a string error that
//! describes the failure.

use vstd::prelude::*;

use crate::url::spec_base_url;
use crate::url::base_url;

verus! {

/// The port of the service whose `/status` endpoint serves raw status
/// text.
pub const STATUS_PORT: u16 = 9999;

/// The port of the service whose `/consciousness` endpoint serves raw
/// consciousness text.
pub const CONSCIOUSNESS_PORT: u16 = 9998;

/// The URL of the raw status endpoint.
pub open spec fn spec_status_url() -> Seq<char> {
    spec_base_url(STATUS_PORT) + "/status"@
}

/// The URL of the raw consciousness endpoint.
pub open spec fn spec_consciousness_url() -> Seq<char> {
    spec_base_url(CONSCIOUSNESS_PORT) + "/consciousness"@
}

/// The error text surfaced when fetching the status endpoint fails, built
/// from the transport failure's own description.
pub open spec fn spec_status_fetch_error(detail: Seq<char>) -> Seq<char> {
    "Failed to fetch Eternal Daemon status: "@ + detail
}

/// The error text surfaced when fetching the consciousness endpoint
/// fails, built from the transport failure's own description.
pub open spec fn spec_consciousness_fetch_error(detail: Seq<char>) -> Seq<char> {
    "Failed to fetch consciousness state: "@ + detail
}

/// The URL `http://localhost:9999/status` of the raw status endpoint.
pub fn status_url() -> (s: String)
    ensures
        s@ == spec_status_url(),
{
    let mut s = base_url(STATUS_PORT);
    s.append("/status");
    s
}

/// The URL `http://localhost:9998/consciousness` of the raw consciousness
/// endpoint.
pub fn consciousness_url() -> (s: String)
    ensures
        s@ == spec_consciousness_url(),
{
    let mut s = base_url(CONSCIOUSNESS_PORT);
    s.append("/consciousness");
    s
}

/// The user-visible error for a failed status fetch: a fixed prefix
/// followed by the failure's description.
pub fn status_fetch_error(detail: &str) -> (s: String)
    ensures
        s@ == spec_status_fetch_error(detail@),
{
    let mut s = String::from_str("Failed to fetch Eternal Daemon status: ");
    s.append(detail);
    s
}

/// The user-visible error for a failed consciousness fetch: a fixed
/// prefix followed by the failure's description.
pub fn consciousness_fetch_error(detail: &str) -> (s: String)
    ensures
        s@ == spec_consciousness_fetch_error(detail@),
{
    let mut s = String::from_str("Failed to fetch consciousness state: ");
    s.append(detail);
    s
}

} // verus!
