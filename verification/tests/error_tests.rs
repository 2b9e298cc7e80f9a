use users_api::error::{AppError, Status};

#[test]
fn status_holds_only_three_digit_codes() {
    assert!(Status::from_u16(0).is_none());
    assert!(Status::from_u16(99).is_none());
    assert_eq!(Status::from_u16(100).unwrap().as_u16(), 100);
    assert_eq!(Status::from_u16(404).unwrap().as_u16(), 404);
    assert_eq!(Status::from_u16(999).unwrap().as_u16(), 999);
    assert!(Status::from_u16(1000).is_none());
    assert!(Status::from_u16(u16::MAX).is_none());
}

#[test]
fn named_statuses_have_their_codes() {
    assert_eq!(Status::bad_request().as_u16(), 400);
    assert_eq!(Status::unauthorized().as_u16(), 401);
    assert_eq!(Status::internal_server_error().as_u16(), 500);
}

#[test]
fn new_error_keeps_status_and_message() {
    let error = AppError::new(Status::bad_request(), "nope");
    assert_eq!(error.status_code.as_u16(), 400);
    assert_eq!(error.message, "nope");
}

#[test]
fn body_is_an_object_with_the_error_member() {
    let error = AppError::new(Status::internal_server_error(), "Failed to fetch users");
    assert_eq!(error.body(), "{\"error\":\"Failed to fetch users\"}");
}

#[test]
fn body_keeps_an_apostrophe_as_it_is() {
    let error = AppError::new(
        Status::bad_request(),
        "Invalid request body: 'name' field is required",
    );
    assert_eq!(
        error.body(),
        "{\"error\":\"Invalid request body: 'name' field is required\"}"
    );
}

#[test]
fn body_escapes_quotes_and_control_characters() {
    let error = AppError::new(Status::bad_request(), "say \"hi\"\n\\");
    assert_eq!(error.body(), "{\"error\":\"say \\\"hi\\\"\\n\\\\\"}");
}

#[test]
fn body_of_an_empty_message() {
    let error = AppError::new(Status::unauthorized(), "");
    assert_eq!(error.body(), "{\"error\":\"\"}");
}

#[test]
fn body_parses_back_to_the_message() {
    let error = AppError::new(Status::unauthorized(), "tab\there, caf\u{e9}");
    let parsed: serde_json::Value = serde_json::from_str(&error.body()).unwrap();
    assert_eq!(parsed.get("error").unwrap().as_str().unwrap(), "tab\there, caf\u{e9}");
    assert_eq!(parsed.as_object().unwrap().len(), 1);
}
