use fib_api::json_api::Output;

const CONTENT_TYPE: &str = "application/vnd.api+json";

#[test]
fn test_error_builder() {
    let mut builder = Output::<u8>::new();
    builder.add_error(409);
    builder.err_source("test_error_builder".to_string());
    builder.err_detail("detail".to_string());

    assert_eq!(builder.data, None);
    assert_eq!(builder.errors.len(), 1);
    let errors = &builder.errors[0];
    assert_eq!(errors.detail, Some("detail".to_string()));
    assert_eq!(errors.source, Some("test_error_builder".to_string()));
    assert_eq!(errors.status, 409);
    assert_eq!(errors.title, "Conflict");
}

#[test]
fn title_defaults_to_canonical_reason_phrase() {
    let mut envelope = Output::<u8>::new();
    envelope.add_error(404);
    envelope.add_error(418);
    envelope.add_error(503);
    assert_eq!(envelope.errors[0].title, "Not Found");
    assert_eq!(envelope.errors[1].title, "I'm a teapot");
    assert_eq!(envelope.errors[2].title, "Service Unavailable");
}

#[test]
fn title_defaults_to_empty_without_canonical_reason_phrase() {
    let mut envelope = Output::<u8>::new();
    envelope.add_error(299);
    assert_eq!(envelope.errors[0].title, "");
    assert_eq!(envelope.errors[0].status, 299);
}

#[test]
fn mutators_on_empty_envelope_are_no_ops() {
    let mut envelope = Output::<u8>::new();
    envelope.err_source("nowhere".to_string());
    envelope.err_title("nothing".to_string());
    envelope.err_detail("none".to_string());
    assert_eq!(envelope.data, None);
    assert_eq!(envelope.errors.len(), 0);

    let (status, content_type, body) = envelope.respond();
    assert_eq!(status, 200);
    assert_eq!(content_type, CONTENT_TYPE);
    assert_eq!(body, "{}");
}

#[test]
fn mutators_target_only_the_last_error() {
    let mut envelope = Output::<u8>::new();
    envelope.add_error(400);
    envelope.err_detail("first".to_string());
    envelope.add_error(404);
    envelope.err_source("second source".to_string());
    envelope.err_title("second title".to_string());
    envelope.err_detail("second detail".to_string());

    assert_eq!(envelope.errors[0].detail, Some("first".to_string()));
    assert_eq!(envelope.errors[0].source, None);
    assert_eq!(envelope.errors[0].title, "Bad Request");
    assert_eq!(envelope.errors[1].source, Some("second source".to_string()));
    assert_eq!(envelope.errors[1].title, "second title");
    assert_eq!(envelope.errors[1].detail, Some("second detail".to_string()));
}

#[test]
fn outer_status_is_500_iff_some_error_is_server_class() {
    let mut server = Output::<u8>::new();
    server.add_error(418);
    server.add_error(503);
    let (status, _, _) = server.respond();
    assert_eq!(status, 500);

    let mut client = Output::<u8>::new();
    client.add_error(418);
    client.add_error(409);
    let (status, _, _) = client.respond();
    assert_eq!(status, 400);
}

#[test]
fn errors_override_a_caller_supplied_status() {
    let mut envelope = Output::<u8>::new();
    envelope.add_error(409);
    let (status, _, _) = envelope.respond_with_code(201);
    assert_eq!(status, 400);

    let empty = Output::<u8>::new();
    let (status, _, _) = empty.respond_with_code(201);
    assert_eq!(status, 201);
}

#[test]
fn empty_envelope_finalizes_to_success_default() {
    let envelope = Output::<u8>::new();
    let (status, content_type, body) = envelope.respond();
    assert_eq!(status, 200);
    assert_eq!(content_type, CONTENT_TYPE);
    assert_eq!(body, "{}");
}

#[test]
fn body_holds_only_the_keys_that_are_set() {
    let mut data_only = Output::<u8>::new();
    data_only.add(7);
    let (_, _, body) = data_only.respond();
    assert_eq!(body, "{\"data\":7}");

    let mut errors_only = Output::<u8>::new();
    errors_only.add_error(409);
    let (_, _, body) = errors_only.respond();
    assert_eq!(body, "{\"errors\":[{\"status\":409,\"title\":\"Conflict\"}]}");

    let mut both = Output::<u8>::new();
    both.add(7);
    both.add_error(409);
    let (_, _, body) = both.respond();
    assert_eq!(
        body,
        "{\"data\":7,\"errors\":[{\"status\":409,\"title\":\"Conflict\"}]}"
    );
}

#[test]
fn conflict_error_with_source_and_detail() {
    let mut envelope = Output::<u8>::new();
    envelope.add_error(409);
    envelope.err_source("x".to_string());
    envelope.err_detail("y".to_string());

    assert_eq!(envelope.errors.len(), 1);
    let (status, content_type, body) = envelope.respond();
    assert_eq!(status, 400);
    assert_eq!(content_type, CONTENT_TYPE);
    assert_eq!(
        body,
        "{\"errors\":[{\"status\":409,\"source\":\"x\",\"title\":\"Conflict\",\"detail\":\"y\"}]}"
    );
}

#[test]
fn string_fields_are_escaped_in_the_body() {
    let mut envelope = Output::<u8>::new();
    envelope.add_error(409);
    envelope.err_detail("say \"hi\"\nback\\slash\u{1}".to_string());
    let (_, _, body) = envelope.respond();
    assert_eq!(
        body,
        "{\"errors\":[{\"status\":409,\"title\":\"Conflict\",\"detail\":\"say \\\"hi\\\"\\nback\\\\slash\\u0001\"}]}"
    );
}
