//! The approval client's decisions: the endpoint a call targets, the token
//! requirement, and what each response status means. The HTTP transport
//! stays with the caller.

use vstd::prelude::*;
use vstd::string::*;

use crate::decimal::{dec_digits, u64_to_string};

verus! {

/// The distinguished response status meaning a decision for this identity
/// was already recorded: an idempotent no-op, not an error.
pub const ALREADY_REPORTED_STATUS: u16 = 208;

/// A response status counts as success exactly when it lies in the 2xx range.
pub open spec fn spec_is_success_status(status: u16) -> bool {
    200 <= status < 300
}

/// Whether a response status is a success status (2xx).
pub fn is_success_status(status: u16) -> (r: bool)
    ensures
        r == spec_is_success_status(status),
{
    200 <= status && status < 300
}

/// Error talking to the approval API.
#[derive(Debug)]
pub enum ApiError {
    /// The bearer token was missing from the process environment; fatal to
    /// the call before any request is made.
    MissingToken,
    /// A non-success response from the named endpoint.
    Status { endpoint: String, status: u16 },
}

/// The URL of the name-request endpoint on the given host.
pub open spec fn endpoint_text(host: Seq<char>) -> Seq<char> {
    "https://"@ + host + "/namereq"@
}

/// The URL of the name-request endpoint on the given host.
pub fn namereq_endpoint(host: &str) -> (u: String)
    ensures
        u@ == endpoint_text(host@),
{
    let mut u = String::from_str("https://");
    u.append(host);
    u.append("/namereq");
    proof {
        assert(u@ =~= endpoint_text(host@));
    }
    u
}

/// The token every call must carry: hands it through when present, and
/// reports the configuration error when the environment lacked it.
pub fn require_token(token: Option<String>) -> (r: Result<String, ApiError>)
    ensures
        match token {
            Some(t) => r matches Ok(x) && x == t,
            None => r matches Err(e) && e is MissingToken,
        },
{
    match token {
        Some(t) => Ok(t),
        None => Err(ApiError::MissingToken),
    }
}

/// Interprets the response status of the outstanding-requests fetch:
/// success exactly for a 2xx status, else the error names endpoint and
/// status.
pub fn interpret_fetch_status(endpoint: &str, status: u16) -> (r: Result<(), ApiError>)
    ensures
        r is Ok <==> spec_is_success_status(status),
        !spec_is_success_status(status) ==> (r matches Err(ApiError::Status {
            endpoint: ep,
            status: st,
        }) && ep@ == endpoint@ && st == status),
{
    if is_success_status(status) {
        Ok(())
    } else {
        Err(ApiError::Status { endpoint: String::from_str(endpoint), status })
    }
}

/// Interprets the response status of a decision submission: any 2xx status
/// is success, and the result says whether the decision was newly recorded —
/// the already-reported status signals an idempotent no-op, not an error.
pub fn interpret_decision_status(endpoint: &str, status: u16) -> (r: Result<bool, ApiError>)
    ensures
        spec_is_success_status(status) ==> (r matches Ok(updated) && updated == (status
            != ALREADY_REPORTED_STATUS)),
        !spec_is_success_status(status) ==> (r matches Err(ApiError::Status {
            endpoint: ep,
            status: st,
        }) && ep@ == endpoint@ && st == status),
{
    if is_success_status(status) {
        Ok(status != ALREADY_REPORTED_STATUS)
    } else {
        Err(ApiError::Status { endpoint: String::from_str(endpoint), status })
    }
}

/// The log line for a failed or unconfigured API call.
pub open spec fn api_error_text(endpoint: Seq<char>, status: u16) -> Seq<char> {
    "OFAPI error: "@ + endpoint + " "@ + dec_digits(status as nat)
}

impl ApiError {
    /// The log line describing this error.
    pub fn message(&self) -> (s: String)
        ensures
            match self {
                ApiError::MissingToken => s@ == "OFAPI_TOKEN environment variable missing"@,
                ApiError::Status { endpoint, status } => s@ == api_error_text(endpoint@, *status),
            },
    {
        match self {
            ApiError::MissingToken => String::from_str("OFAPI_TOKEN environment variable missing"),
            ApiError::Status { endpoint, status } => {
                let mut s = String::from_str("OFAPI error: ");
                s.append(endpoint.as_str());
                s.append(" ");
                let num = u64_to_string(*status as u64);
                s.append(num.as_str());
                proof {
                    assert(s@ =~= api_error_text(endpoint@, *status));
                }
                s
            },
        }
    }
}

/// Reply text of the listing command for the number of requests found.
pub open spec fn outstanding_summary_text(count: nat) -> Seq<char> {
    "Found "@ + dec_digits(count) + " outstanding requests"@
}

/// Reply text of the listing command for the number of requests found.
pub fn outstanding_summary(count: usize) -> (s: String)
    ensures
        s@ == outstanding_summary_text(count as nat),
{
    let mut s = String::from_str("Found ");
    let num = u64_to_string(count as u64);
    s.append(num.as_str());
    s.append(" outstanding requests");
    proof {
        assert(s@ =~= outstanding_summary_text(count as nat));
    }
    s
}

} // verus!
