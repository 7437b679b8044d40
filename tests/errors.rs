use practical_rust_book::error::{return_error, Error, InvalidId, Rejection};

fn parse_failure() -> Error {
    Error::ParseError("x".parse::<usize>().unwrap_err())
}

#[test]
fn messages_of_each_error() {
    assert_eq!(Error::MissingParameters.message(), "Missing parameter");
    assert_eq!(Error::DatabaseQueryError.message(), "DatabaseQueryError, invalid data.");
    assert_eq!(Error::QuestionNotFound.message(), "Question not found");
    assert_eq!(
        parse_failure().message(),
        "Cannot parse parameter: invalid digit found in string"
    );
}

#[test]
fn library_errors_are_unprocessable() {
    let r = return_error(Rejection::Custom(Error::DatabaseQueryError));
    assert_eq!(r.status, 422);
    assert_eq!(r.message, "DatabaseQueryError, invalid data.");
    let r = return_error(Rejection::Custom(Error::QuestionNotFound));
    assert_eq!(r.status, 422);
    assert_eq!(r.message, "Question not found");
    let r = return_error(Rejection::Custom(Error::MissingParameters));
    assert_eq!(r.status, 422);
    let r = return_error(Rejection::Custom(parse_failure()));
    assert_eq!(r.status, 422);
    assert!(r.message.starts_with("Cannot parse parameter: "));
}

#[test]
fn forbidden_cors_is_403() {
    let r = return_error(Rejection::CorsForbidden("origin not allowed".to_string()));
    assert_eq!(r.status, 403);
    assert_eq!(r.message, "origin not allowed");
}

#[test]
fn bad_body_is_422() {
    let r = return_error(Rejection::BodyDeserialize("missing field `title`".to_string()));
    assert_eq!(r.status, 422);
    assert_eq!(r.message, "missing field `title`");
}

#[test]
fn anything_else_is_route_not_found() {
    let r = return_error(Rejection::Unmatched);
    assert_eq!(r.status, 404);
    assert_eq!(r.message, "Route not found");
    let r = return_error(Rejection::InvalidId(InvalidId));
    assert_eq!(r.status, 404);
    assert_eq!(r.message, "Route not found");
}
