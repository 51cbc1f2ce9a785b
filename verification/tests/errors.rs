use http::StatusCode;
use progress_sync::protocol::Reply;
use progress_sync::types::{AppError, Percentage, ProgressState};

fn every_fixed_error() -> Vec<AppError> {
    vec![
        AppError::StoreError,
        AppError::UnknownServerError,
        AppError::Unauthorized,
        AppError::UsernameAlreadyRegistered,
        AppError::InvalidRequest,
        AppError::DocumentNotProvided,
    ]
}

#[test]
fn codes_are_the_stable_numbers() {
    assert_eq!(AppError::StoreError.code(), 1000);
    assert_eq!(AppError::UnknownServerError.code(), 2000);
    assert_eq!(AppError::Unauthorized.code(), 2001);
    assert_eq!(AppError::UsernameAlreadyRegistered.code(), 2002);
    assert_eq!(AppError::InvalidRequest.code(), 2003);
    assert_eq!(AppError::DocumentNotProvided.code(), 2004);
    assert_eq!(AppError::Custom { message: "boom".to_string() }.code(), 3000);
}

#[test]
fn statuses_are_those_of_the_table() {
    assert_eq!(AppError::StoreError.status(), StatusCode::BAD_GATEWAY);
    assert_eq!(AppError::UnknownServerError.status(), StatusCode::BAD_GATEWAY);
    assert_eq!(AppError::Unauthorized.status(), StatusCode::UNAUTHORIZED);
    assert_eq!(AppError::UsernameAlreadyRegistered.status(), StatusCode::PAYMENT_REQUIRED);
    assert_eq!(AppError::InvalidRequest.status(), StatusCode::FORBIDDEN);
    assert_eq!(AppError::DocumentNotProvided.status(), StatusCode::FORBIDDEN);
    assert_eq!(
        AppError::Custom { message: "boom".to_string() }.status(),
        StatusCode::INTERNAL_SERVER_ERROR
    );
}

#[test]
fn status_numbers_are_exact() {
    assert_eq!(AppError::StoreError.status().as_u16(), 502);
    assert_eq!(AppError::UnknownServerError.status().as_u16(), 502);
    assert_eq!(AppError::Unauthorized.status().as_u16(), 401);
    assert_eq!(AppError::UsernameAlreadyRegistered.status().as_u16(), 402);
    assert_eq!(AppError::InvalidRequest.status().as_u16(), 403);
    assert_eq!(AppError::DocumentNotProvided.status().as_u16(), 403);
    assert_eq!(AppError::Custom { message: String::new() }.status().as_u16(), 500);
}

#[test]
fn messages_are_fixed_for_fixed_errors() {
    assert_eq!(AppError::StoreError.message(), "Cannot connect to redis server");
    assert_eq!(AppError::UnknownServerError.message(), "Unknown server error.");
    assert_eq!(AppError::Unauthorized.message(), "Unauthorized");
    assert_eq!(AppError::UsernameAlreadyRegistered.message(), "Username is already registered.");
    assert_eq!(AppError::InvalidRequest.message(), "Invalid request");
    assert_eq!(AppError::DocumentNotProvided.message(), "Field 'document' not provided.");
}

#[test]
fn custom_error_carries_its_own_message() {
    let error = AppError::Custom { message: "quota exceeded".to_string() };
    assert_eq!(error.message(), "quota exceeded");
    assert_eq!(AppError::Custom { message: String::new() }.message(), "");
}

#[test]
fn fixed_errors_have_distinct_codes() {
    let errors = every_fixed_error();
    for (i, a) in errors.iter().enumerate() {
        for b in errors.iter().skip(i + 1) {
            assert_ne!(a.code(), b.code());
        }
    }
}

#[test]
fn reply_status_is_201_for_a_registration() {
    let reply = Reply::Created { username: "alice".to_string() };
    assert_eq!(reply.status(), StatusCode::CREATED);
    assert_eq!(reply.status().as_u16(), 201);
}

#[test]
fn reply_status_is_200_for_other_successes() {
    let record = ProgressState {
        document: "book1".to_string(),
        percentage: Percentage { bits: 0.5f32.to_bits() },
        progress: "page 12".to_string(),
        device: "phone".to_string(),
        device_id: String::new(),
        timestamp: 7,
    };
    assert_eq!(Reply::Authorized.status().as_u16(), 200);
    assert_eq!(Reply::Healthy.status().as_u16(), 200);
    assert_eq!(Reply::Progress(record).status().as_u16(), 200);
    assert_eq!(Reply::NoProgress { document: "book2".to_string() }.status().as_u16(), 200);
    assert_eq!(
        Reply::Saved { document: "book1".to_string(), timestamp: 7 }.status(),
        StatusCode::OK
    );
}

#[test]
fn reply_status_of_a_failure_is_the_failure_s() {
    for error in every_fixed_error() {
        let expected = error.status();
        assert_eq!(Reply::Failure(error).status(), expected);
    }
    assert_eq!(Reply::Failure(AppError::Unauthorized).status().as_u16(), 401);
}
