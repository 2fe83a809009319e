//! The response classifier: decides whether an upstream response body is a
//! successful feed or a service-level error document.  The decision reads the
//! status code *and* sniffs the body for an error-document marker, because the
//! upstream is known to wrap error documents in responses with a success
//! status.

use vstd::prelude::*;

use crate::text::{chars_of, contains_pattern, contains_seq};

verus! {

/// How a fetched upstream response is to be treated.
#[derive(Clone, Debug, PartialEq, Eq)]
pub enum ClassificationOutcome {
    /// The body is a feed document to sanitize and parse.
    Success { body: Vec<char> },
    /// The body is a service-error document to hand to the error parser.
    ServiceError { body: Vec<char> },
    /// The upstream was never reached or never answered; no body exists.
    TransportFailure { cause: Vec<char> },
}

/// Opening of a service-error document's root element.
pub open spec fn error_marker() -> Seq<char> {
    "<error"@
}

/// The body embeds a service-error document.
pub open spec fn has_error_marker(body: Seq<char>) -> bool {
    contains_seq(body, error_marker())
}

/// The status code reports success.
pub open spec fn is_success_status(status: u16) -> bool {
    200 <= status < 300
}

/// The decision rule: a response counts as a successful feed exactly when the
/// status code reports success and the body carries no error-document marker.
pub open spec fn classifies_as_success(status: u16, body: Seq<char>) -> bool {
    is_success_status(status) && !has_error_marker(body)
}

/// Classifies a response that was fetched and read: `Success` carrying the
/// body exactly under the decision rule, `ServiceError` carrying the body
/// otherwise, and never `TransportFailure`.
pub fn classify(status: u16, body: Vec<char>) -> (r: ClassificationOutcome)
    ensures
        classifies_as_success(status, body@) ==> r == (ClassificationOutcome::Success { body }),
        !classifies_as_success(status, body@) ==> r == (ClassificationOutcome::ServiceError {
            body,
        }),
{
    let marker = chars_of("<error");
    if 200 <= status && status < 300 && !contains_pattern(&body, &marker) {
        ClassificationOutcome::Success { body }
    } else {
        ClassificationOutcome::ServiceError { body }
    }
}

/// A recognizable error marker in the body defeats a success status: such a
/// response is never classified as a successful feed.
pub proof fn lemma_marker_defeats_success_status(status: u16, body: Seq<char>)
    requires
        has_error_marker(body),
    ensures
        !classifies_as_success(status, body),
{
}

/// A non-success status is never classified as a successful feed, whatever
/// the body holds.
pub proof fn lemma_non_success_status_is_service_error(status: u16, body: Seq<char>)
    requires
        !is_success_status(status),
    ensures
        !classifies_as_success(status, body),
{
}

} // verus!
