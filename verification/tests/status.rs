use backend::status::Status;

#[test]
fn status_codes() {
    assert_eq!(Status::Unauthorized.code(), 401);
    assert_eq!(Status::NotFound.code(), 404);
    assert_eq!(Status::Conflict.code(), 409);
    assert_eq!(Status::ServiceUnavailable.code(), 503);
    assert_eq!(Status::InternalServerError.code(), 500);
}
