use backend::auth::db::{
    authorize_role, create_user, map_db_err, map_signup_err, IoFailure, StoreError,
};
use backend::auth::login_request::LoginRequest;
use backend::auth::password::verify_password;
use backend::auth::roles::Roles;
use backend::status::Status;

#[test]
fn store_failures_are_classified() {
    assert_eq!(map_db_err(StoreError::RowNotFound), Status::NotFound);
    assert_eq!(
        map_db_err(StoreError::Io { failure: IoFailure::TimedOut }),
        Status::ServiceUnavailable
    );
    assert_eq!(
        map_db_err(StoreError::Io { failure: IoFailure::Other }),
        Status::InternalServerError
    );
    assert_eq!(map_db_err(StoreError::PoolTimedOut), Status::ServiceUnavailable);
    assert_eq!(map_db_err(StoreError::PoolClosed), Status::ServiceUnavailable);
    assert_eq!(
        map_db_err(StoreError::Database { unique_violation: true }),
        Status::InternalServerError
    );
    assert_eq!(
        map_db_err(StoreError::Database { unique_violation: false }),
        Status::InternalServerError
    );
    assert_eq!(map_db_err(StoreError::Other), Status::InternalServerError);
}

#[test]
fn role_from_the_store_is_held_against_the_required_role() {
    assert_eq!(authorize_role(Ok(Roles::User), Roles::User), Ok(()));
    assert_eq!(authorize_role(Ok(Roles::User), Roles::Admin), Ok(()));
    assert_eq!(authorize_role(Ok(Roles::Guest), Roles::Admin), Ok(()));
    assert_eq!(authorize_role(Ok(Roles::Admin), Roles::Admin), Ok(()));
    assert_eq!(authorize_role(Ok(Roles::Admin), Roles::User), Err(Status::Unauthorized));
    assert_eq!(authorize_role(Ok(Roles::User), Roles::Guest), Err(Status::Unauthorized));
}

#[test]
fn failed_role_lookup_is_the_stores_failure() {
    assert_eq!(authorize_role(Err(StoreError::RowNotFound), Roles::Guest), Err(Status::NotFound));
    assert_eq!(
        authorize_role(Err(StoreError::PoolTimedOut), Roles::Admin),
        Err(Status::ServiceUnavailable)
    );
    assert_eq!(
        authorize_role(Err(StoreError::Other), Roles::Admin),
        Err(Status::InternalServerError)
    );
}

#[test]
fn new_user_has_a_hashed_password_and_the_role_user() {
    let req = LoginRequest {
        username: "alice".to_owned(),
        password: "wonderland".to_owned(),
        stay_logged_in: false,
    };
    let user = create_user(&req).unwrap();
    assert_eq!(user.username, "alice");
    assert_eq!(user.role, Roles::User);
    assert_ne!(user.password_hash, "wonderland");
    assert!(!user.password_hash.contains("wonderland"));
    assert_eq!(verify_password(&user.password_hash, "wonderland"), Ok(()));
    assert_eq!(verify_password(&user.password_hash, "Wonderland"), Err(Status::Unauthorized));
}

#[test]
fn unreachable_store_is_service_unavailable() {
    for failure in [
        IoFailure::TimedOut,
        IoFailure::ConnectionRefused,
        IoFailure::ConnectionReset,
        IoFailure::ConnectionAborted,
        IoFailure::NotConnected,
        IoFailure::HostUnreachable,
        IoFailure::NetworkUnreachable,
    ] {
        assert!(failure.is_unreachable());
        assert_eq!(map_db_err(StoreError::Io { failure }), Status::ServiceUnavailable);
        assert_eq!(
            authorize_role(Err(StoreError::Io { failure }), Roles::User),
            Err(Status::ServiceUnavailable)
        );
    }
    assert!(!IoFailure::Other.is_unreachable());
}

#[test]
fn store_failures_fall_into_three_buckets() {
    let mut errors = vec![
        StoreError::RowNotFound,
        StoreError::PoolTimedOut,
        StoreError::PoolClosed,
        StoreError::Database { unique_violation: true },
        StoreError::Database { unique_violation: false },
        StoreError::Other,
    ];
    for failure in [IoFailure::TimedOut, IoFailure::ConnectionRefused, IoFailure::Other] {
        errors.push(StoreError::Io { failure });
    }
    for error in errors {
        let status = map_db_err(error);
        assert!(matches!(
            status,
            Status::NotFound | Status::ServiceUnavailable | Status::InternalServerError
        ));
        assert_eq!(status == Status::NotFound, error == StoreError::RowNotFound);
    }
}

#[test]
fn taken_username_is_a_conflict_at_signup_only() {
    let taken = StoreError::Database { unique_violation: true };
    assert_eq!(map_signup_err(taken), Status::Conflict);
    assert_eq!(map_db_err(taken), Status::InternalServerError);
    assert_eq!(authorize_role(Err(taken), Roles::User), Err(Status::InternalServerError));
    for error in [
        StoreError::RowNotFound,
        StoreError::PoolTimedOut,
        StoreError::PoolClosed,
        StoreError::Database { unique_violation: false },
        StoreError::Io { failure: IoFailure::ConnectionRefused },
        StoreError::Io { failure: IoFailure::Other },
        StoreError::Other,
    ] {
        assert_eq!(map_signup_err(error), map_db_err(error));
    }
}

#[test]
fn every_ordinary_password_gets_a_record() {
    for password in ["", "a", "wonderland", "pässwörd ✓", "$argon2id$v=19$m=19456,t=2,p=1$x$y"] {
        let req = LoginRequest {
            username: "alice".to_owned(),
            password: password.to_owned(),
            stay_logged_in: true,
        };
        let user = create_user(&req).unwrap();
        assert_eq!(user.username, "alice");
        assert_eq!(user.role, Roles::User);
        assert_ne!(user.password_hash, password);
        assert_eq!(verify_password(&user.password_hash, password), Ok(()));
    }
}
