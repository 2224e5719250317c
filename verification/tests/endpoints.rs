use fib_api::routes::{errors_response, fib_failure_response, fib_response, fibonacci};

const CONTENT_TYPE: &str = "application/vnd.api+json";

#[test]
fn test_fibonacci() {
    assert_eq!(fibonacci(20), 6765);
}

#[test]
fn fib_reply_carries_the_computed_payload() {
    let (status, content_type, body) = fib_response(20);
    assert_eq!(status, 200);
    assert_eq!(content_type, CONTENT_TYPE);
    assert_eq!(body, "{\"data\":{\"n\":20,\"result\":6765}}");
}

#[test]
fn fib_reply_for_the_smallest_inputs() {
    let (status, _, body) = fib_response(0);
    assert_eq!(status, 200);
    assert_eq!(body, "{\"data\":{\"n\":0,\"result\":0}}");

    let (status, _, body) = fib_response(1);
    assert_eq!(status, 200);
    assert_eq!(body, "{\"data\":{\"n\":1,\"result\":1}}");
}

#[test]
fn fib_reply_rejects_values_above_the_ceiling() {
    let (status, content_type, body) = fib_response(41);
    assert_eq!(status, 400);
    assert_eq!(content_type, CONTENT_TYPE);
    assert!(body.contains("41"));
    assert_eq!(
        body,
        "{\"errors\":[{\"status\":406,\"source\":\"/fib\",\"title\":\"Not Acceptable\",\"detail\":\"Number is too high: 41\"}]}"
    );
}

#[test]
fn fib_reply_accepts_the_ceiling_itself() {
    let (status, _, body) = fib_response(40);
    assert_eq!(status, 200);
    assert_eq!(body, "{\"data\":{\"n\":40,\"result\":102334155}}");
}

#[test]
fn fib_failure_reply_reports_the_description() {
    let (status, content_type, body) = fib_failure_response("worker gone");
    assert_eq!(status, 400);
    assert_eq!(content_type, CONTENT_TYPE);
    assert_eq!(
        body,
        "{\"errors\":[{\"status\":422,\"source\":\"fib\",\"title\":\"Unprocessable Entity\",\"detail\":\"Calculation failed: worker gone\"}]}"
    );
}

#[test]
fn errors_reply_holds_both_records_in_order() {
    let (status, content_type, body) = errors_response();
    assert_eq!(status, 500);
    assert_eq!(content_type, CONTENT_TYPE);
    assert_eq!(
        body,
        "{\"errors\":[{\"status\":503,\"source\":\"/errors\",\"title\":\"Service Unavailable\",\"detail\":\"First error\"},{\"status\":418,\"title\":\"I'm a teapot\",\"detail\":\"Second, teapot error\"}]}"
    );
}
