//! Interpreting the outcome of a health probe.
//!
//! A probe is a single best-effort HTTP GET against a service's health
//! endpoint. All transport failures collapse into [`ProbeOutcome::Failure`];
//! a reply carries its HTTP status code. The probe is a liveness signal,
//! never an error: it succeeds exactly when the reply's status code lies in
//! the success range 200..=299.

use vstd::prelude::*;

verus! {

/// What a single health probe observed: either no usable reply at all
/// (connection refused, timeout, or any other transport failure), or a
/// reply with its HTTP status code.
#[derive(Clone, Copy, Debug, PartialEq, Eq, Structural)]
pub enum ProbeOutcome {
    Failure,
    Response(u16),
}

/// A probe counts as a success exactly when a reply arrived and its
/// status code lies in 200..=299.
pub open spec fn spec_probe_success(o: ProbeOutcome) -> bool {
    match o {
        ProbeOutcome::Failure => false,
        ProbeOutcome::Response(code) => 200 <= code <= 299,
    }
}

/// Whether an HTTP status code lies in the success range.
pub fn is_success_status(code: u16) -> (r: bool)
    ensures
        r == (200 <= code <= 299),
{
    200 <= code && code <= 299
}

/// Decides liveness from one probe outcome: `true` only for a reply with
/// a status code in 200..=299; `false` for every transport failure and
/// every other status code.
pub fn probe_success(o: &ProbeOutcome) -> (r: bool)
    ensures
        r == spec_probe_success(*o),
{
    match o {
        ProbeOutcome::Failure => false,
        ProbeOutcome::Response(code) => is_success_status(*code),
    }
}

} // verus!
