use saas_rbac::error::{stored, ErrorResponse, Status, StorageFailure};
use saas_rbac::validation::{collect, is_email, is_password, ValidationErrors, MIN_PASSWORD_LENGTH};

#[test]
fn status_codes() {
    assert_eq!(Status::Success.code(), 200);
    assert_eq!(Status::Created.code(), 201);
    assert_eq!(Status::NoContent.code(), 204);
    assert_eq!(Status::BadRequest.code(), 400);
    assert_eq!(Status::Unauthorized.code(), 401);
    assert_eq!(Status::Forbidden.code(), 403);
    assert_eq!(Status::Conflict.code(), 409);
    assert_eq!(Status::InternalServerError.code(), 500);
    assert_ne!(Status::Unauthorized.code(), Status::Forbidden.code());
}

#[test]
fn error_responses() {
    let (status, body) = ErrorResponse::new(Status::Forbidden, "You're not allowed to see organization members.");
    assert_eq!(status, Status::Forbidden);
    assert_eq!(body.error, "You're not allowed to see organization members.");
    let (status, body) = ErrorResponse::internal_error();
    assert_eq!((status, body.error.as_str()), (Status::InternalServerError, "Internal Server Error"));
    let (status, body) = ErrorResponse::unauthorized();
    assert_eq!((status, body.error.as_str()), (Status::Unauthorized, "Unauthorized"));
}

#[test]
fn stored_passes_records_on() {
    assert_eq!(stored(Ok::<u8, StorageFailure>(7)).unwrap(), 7);
    let (status, body) = stored(Err::<u8, StorageFailure>(StorageFailure)).unwrap_err();
    assert_eq!((status, body.error.as_str()), (Status::InternalServerError, "Internal server error"));
}

#[test]
fn email_rule() {
    for good in ["email@here.com", "weirder-email@here.and.there.com", "john@acme.com", "email@[127.0.0.1]"] {
        assert!(is_email(good), "{}", good);
    }
    for bad in ["", "abc", "abc@", "@here.com", "a @x.cz", "abc@bar", "a@b@c.com", "something@@somewhere.com"] {
        assert_eq!(is_email(bad), bad == "abc@bar", "{}", bad);
    }
    assert!(!is_email("email@here.com "));
}

#[test]
fn password_rule() {
    assert_eq!(MIN_PASSWORD_LENGTH, 6);
    assert!(!is_password(""));
    assert!(!is_password("12345"));
    assert!(is_password("123456"));
    assert!(is_password("1234567"));
    // Characters count, not bytes.
    assert!(!is_password("ééééé"));
    assert!(is_password("éééééé"));
}

#[test]
fn validation_outcomes_and_messages() {
    assert_eq!(collect(true, true), Ok(()));
    assert_eq!(collect(false, true), Err(ValidationErrors { email: true, password: false }));
    assert_eq!(collect(true, false), Err(ValidationErrors { email: false, password: true }));
    assert_eq!(collect(false, false), Err(ValidationErrors { email: true, password: true }));
    for errors in [
        ValidationErrors { email: true, password: false },
        ValidationErrors { email: false, password: true },
        ValidationErrors { email: true, password: true },
    ] {
        assert!(errors.message().starts_with("Validation error: "));
        assert!(errors.message().len() > "Validation error: ".len());
        let (status, body) = errors.refusal();
        assert_eq!(status, Status::BadRequest);
        assert!(body.error.starts_with("Validation error: "));
    }
}
