use odata_gateway::classify::{classify, ClassificationOutcome};
use odata_gateway::text::chars_of;

fn body_of(outcome: &ClassificationOutcome) -> String {
    match outcome {
        ClassificationOutcome::Success { body } => body.iter().collect(),
        ClassificationOutcome::ServiceError { body } => body.iter().collect(),
        ClassificationOutcome::TransportFailure { cause } => cause.iter().collect(),
    }
}

// A success status with an embedded error document is a service error, not a
// success: the classifier must not trust the status code alone.
#[test]
fn status_200_with_error_marker_is_service_error() {
    let body = "<error xmlns=\"http://schemas.microsoft.com/ado/2007/08/dataservices/metadata\">\
                <code>X/123</code></error>";
    let outcome = classify(200, chars_of(body));
    assert!(matches!(outcome, ClassificationOutcome::ServiceError { .. }));
    assert_eq!(body_of(&outcome), body);
}

// A non-2xx status is always a service error, whatever the body holds.
#[test]
fn non_success_status_is_always_service_error() {
    let feedish = "<feed><entry></entry></feed>";
    for status in [100u16, 199, 300, 301, 400, 404, 500, 503] {
        let outcome = classify(status, chars_of(feedish));
        assert!(matches!(outcome, ClassificationOutcome::ServiceError { .. }));
        assert_eq!(body_of(&outcome), feedish);
    }
}

#[test]
fn success_status_with_clean_body_is_success() {
    let body = "<feed><entry><d:Sex>F</d:Sex></entry></feed>";
    for status in [200u16, 201, 204, 299] {
        let outcome = classify(status, chars_of(body));
        assert!(matches!(outcome, ClassificationOutcome::Success { .. }));
        assert_eq!(body_of(&outcome), body);
    }
}

#[test]
fn status_boundaries() {
    let body = "<feed/>";
    assert!(matches!(
        classify(199, chars_of(body)),
        ClassificationOutcome::ServiceError { .. }
    ));
    assert!(matches!(classify(200, chars_of(body)), ClassificationOutcome::Success { .. }));
    assert!(matches!(classify(299, chars_of(body)), ClassificationOutcome::Success { .. }));
    assert!(matches!(
        classify(300, chars_of(body)),
        ClassificationOutcome::ServiceError { .. }
    ));
}
