use testcontainers_test::db_handle::ExecuteResult;
use testcontainers_test::domain::errors::{
    DriverFailure, DriverFailureKind, HashFailure, InnerError, InteractFailure, JoinFailure,
    ServerError,
};
use testcontainers_test::domain::{Login, Person, PersonInput, User, UserInput};
use testcontainers_test::password::hash_and_salt_password;
use testcontainers_test::routes::login::{after_lookup, after_verification};
use testcontainers_test::routes::sign_up::sign_up_parameters;
use testcontainers_test::routes::after_hashing;
use testcontainers_test::routes::{
    create_person, get_person, get_person_status, joined, login, login_page, sign_up, LoginModel,
    LoginReply, LoginStep, MessageToClient, SignUpReply,
};

const FREEDMAN_HASH: &str = "$argon2id$v=19$m=19456,t=2,p=1$c29tZXNhbHRzb21lc2FsdA$hbbEwOxish008cY6LWlTFMlZQQEWuKn8lzGviC/pFsU";

fn josh() -> User {
    User::new(1, String::from("josh"))
}

fn credentials(username: &str, password: &str) -> Login {
    Login::new(String::from(username), String::from(password))
}

fn refused(kind: DriverFailureKind) -> InnerError {
    InnerError::DatabaseConnectionError {
        source: DriverFailure { kind, detail: String::from("refused") },
    }
}

fn rejected() -> LoginModel {
    LoginModel { message: Some(MessageToClient::InvalidUsernameOrPassword) }
}

#[test]
fn a_created_person_has_the_issued_id_and_the_name() {
    let input = PersonInput::new("Josh");
    let person = create_person(&input, Ok(ExecuteResult { last_insert_rowid: 12 })).unwrap();
    assert!(person.id() > 0);
    assert_eq!(person, Person::new(12, String::from("Josh")));
}

#[test]
fn a_failed_insert_creates_no_person() {
    let input = PersonInput::new("Josh");
    let reply = create_person(&input, Err(refused(DriverFailureKind::Other)));
    let error = reply.unwrap_err();
    assert_eq!(error.status_code(), 500);
    assert!(matches!(error, ServerError(InnerError::DatabaseConnectionError { .. })));
}

#[test]
fn a_person_read_back_is_the_person_created() {
    let input = PersonInput::new("Josh");
    let created = create_person(&input, Ok(ExecuteResult { last_insert_rowid: 3 })).unwrap();
    let row = Person::new(3, String::from("Josh"));
    let reply = get_person(Ok(Some(row)));
    assert_eq!(get_person_status(&reply), 200);
    assert_eq!(reply.unwrap().unwrap(), created);
}

#[test]
fn an_unused_id_is_not_found() {
    let reply = get_person(Ok(None));
    assert_eq!(get_person_status(&reply), 404);
    assert_eq!(reply.unwrap(), None);
}

#[test]
fn a_failed_lookup_is_a_server_error() {
    let reply = get_person(Err(InnerError::DatabaseInteractError {
        source: InteractFailure::Panic,
    }));
    assert_eq!(get_person_status(&reply), 500);
    assert!(matches!(reply, Err(ServerError(InnerError::DatabaseInteractError { .. }))));
}

#[test]
fn joined_flattens_a_task() {
    assert_eq!(joined(Ok(Ok(5))).unwrap(), 5);
    let failed: Result<Result<i32, InnerError>, JoinFailure> =
        Ok(Err(InnerError::InvalidUsernameOrPassword));
    assert!(matches!(joined(failed), Err(InnerError::InvalidUsernameOrPassword)));
    let lost: Result<Result<i32, InnerError>, JoinFailure> = Err(JoinFailure::Panicked);
    assert!(matches!(
        joined(lost),
        Err(InnerError::JoinError { source: JoinFailure::Panicked })
    ));
    let cancelled: Result<Result<i32, InnerError>, JoinFailure> = Err(JoinFailure::Cancelled);
    assert!(matches!(
        joined(cancelled),
        Err(InnerError::JoinError { source: JoinFailure::Cancelled })
    ));
}

#[test]
fn the_login_page_starts_without_a_message() {
    assert_eq!(login_page(), LoginModel { message: None });
}

#[test]
fn an_unknown_username_is_rejected_at_once() {
    match after_lookup(Ok(None)).unwrap() {
        LoginStep::Reply(LoginReply::Rejected(model)) => assert_eq!(model, rejected()),
        other => panic!("unexpected step: {:?}", other),
    }
}

#[test]
fn a_known_username_goes_to_verification() {
    match after_lookup(Ok(Some((josh(), String::from(FREEDMAN_HASH))))).unwrap() {
        LoginStep::Verify { user, password_hash } => {
            assert_eq!(user.id(), 1);
            assert_eq!(user.username(), "josh");
            assert_eq!(password_hash, FREEDMAN_HASH);
        }
        other => panic!("unexpected step: {:?}", other),
    }
}

#[test]
fn a_failed_user_lookup_is_a_server_error() {
    let error = after_lookup(Err(refused(DriverFailureKind::Other))).unwrap_err();
    assert_eq!(error.status_code(), 500);
}

#[test]
fn verification_decides_the_reply() {
    match after_verification(josh(), Ok(true)).unwrap() {
        LoginReply::Authenticated(user) => assert_eq!(user.username(), "josh"),
        other => panic!("unexpected reply: {:?}", other),
    }
    match after_verification(josh(), Ok(false)).unwrap() {
        LoginReply::Rejected(model) => assert_eq!(model, rejected()),
        other => panic!("unexpected reply: {:?}", other),
    }
    let failed = after_verification(
        josh(),
        Err(InnerError::PasswordHashingError {
            error_source: HashFailure { detail: String::from("invalid algorithm version") },
        }),
    );
    assert_eq!(failed.unwrap_err().status_code(), 500);
    let lost = after_verification(josh(), joined(Err(JoinFailure::Panicked)));
    assert!(matches!(lost, Err(ServerError(InnerError::JoinError { .. }))));
}

#[test]
fn the_right_password_logs_in() {
    let input = credentials("josh", "freedman");
    let reply = login(&input, Ok(Some((josh(), String::from(FREEDMAN_HASH))))).unwrap();
    assert_eq!(reply.status_code(), 200);
    match reply {
        LoginReply::Authenticated(user) => {
            assert_eq!(user.id(), 1);
            assert_eq!(user.username(), "josh");
        }
        other => panic!("unexpected reply: {:?}", other),
    }
}

#[test]
fn a_wrong_password_and_an_unknown_username_are_answered_alike() {
    let wrong_password =
        login(&credentials("josh", "wrong"), Ok(Some((josh(), String::from(FREEDMAN_HASH)))))
            .unwrap();
    let unknown_username = login(&credentials("nobody", "freedman"), Ok(None)).unwrap();
    assert_eq!(wrong_password.status_code(), 400);
    assert_eq!(unknown_username.status_code(), 400);
    assert_eq!(format!("{:?}", wrong_password), format!("{:?}", unknown_username));
    match (wrong_password, unknown_username) {
        (LoginReply::Rejected(left), LoginReply::Rejected(right)) => {
            assert_eq!(left, right);
            assert_eq!(left, rejected());
        }
        other => panic!("unexpected replies: {:?}", other),
    }
}

#[test]
fn a_stored_hash_that_cannot_be_read_is_a_server_error() {
    let reply = login(&credentials("josh", "freedman"), Ok(Some((josh(), String::from("garbage")))));
    let error = reply.unwrap_err();
    assert_eq!(error.status_code(), 500);
    assert!(matches!(error, ServerError(InnerError::PasswordHashingError { .. })));
}

#[test]
fn a_lookup_that_failed_fails_the_login() {
    let reply = login(
        &credentials("josh", "freedman"),
        Err(InnerError::DatabaseInteractError { source: InteractFailure::Aborted }),
    );
    assert!(matches!(reply, Err(ServerError(InnerError::DatabaseInteractError { .. }))));
}

#[test]
fn sign_up_parameters_are_the_username_and_the_hash() {
    let input =
        UserInput::new(String::from("josh"), String::from("freedman"), String::from("freedman"));
    let parameters = sign_up_parameters(&input, String::from(FREEDMAN_HASH));
    assert_eq!(parameters, vec![String::from("josh"), String::from(FREEDMAN_HASH)]);
}

#[test]
fn a_stored_user_is_created() {
    let input =
        UserInput::new(String::from("josh"), String::from("freedman"), String::from("freedman"));
    let reply = sign_up(&input, Ok(ExecuteResult { last_insert_rowid: 4 })).unwrap();
    assert_eq!(reply.status_code(), 200);
    match reply {
        SignUpReply::Created(user) => {
            assert_eq!(user.id(), 4);
            assert_eq!(user.username(), "josh");
        }
        other => panic!("unexpected reply: {:?}", other),
    }
}

#[test]
fn a_taken_username_is_told_apart() {
    let input =
        UserInput::new(String::from("josh"), String::from("freedman"), String::from("freedman"));
    let reply = sign_up(&input, Err(refused(DriverFailureKind::ConstraintViolation))).unwrap();
    assert!(matches!(reply, SignUpReply::UsernameTaken));
    assert_eq!(reply.status_code(), 409);
}

#[test]
fn any_other_failure_of_sign_up_is_a_server_error() {
    let input =
        UserInput::new(String::from("josh"), String::from("freedman"), String::from("freedman"));
    let error = sign_up(&input, Err(refused(DriverFailureKind::Other))).unwrap_err();
    assert_eq!(error.status_code(), 500);
    let error = sign_up(
        &input,
        Err(InnerError::DatabasePoolError {
            source: testcontainers_test::domain::errors::PoolFailure {
                kind: testcontainers_test::domain::errors::PoolFailureKind::Closed,
                detail: String::from("Pool has been closed"),
            },
        }),
    )
    .unwrap_err();
    assert!(matches!(error, ServerError(InnerError::DatabasePoolError { .. })));
}

#[test]
fn sign_up_then_login() {
    let input =
        UserInput::new(String::from("josh"), String::from("freedman"), String::from("freedman"));
    let hash = hash_and_salt_password(String::from(input.password())).unwrap();
    let parameters = sign_up_parameters(&input, hash);
    let created = sign_up(&input, Ok(ExecuteResult { last_insert_rowid: 1 })).unwrap();
    assert_eq!(created.status_code(), 200);
    let stored = || Ok(Some((User::new(1, parameters[0].clone()), parameters[1].clone())));
    let granted = login(&credentials("josh", "freedman"), stored()).unwrap();
    assert_eq!(granted.status_code(), 200);
    match granted {
        LoginReply::Authenticated(user) => {
            assert_eq!(user.id(), 1);
            assert_eq!(user.username(), "josh");
        }
        other => panic!("unexpected reply: {:?}", other),
    }
    let denied = login(&credentials("josh", "wrong"), stored()).unwrap();
    assert_eq!(denied.status_code(), 400);
    assert!(matches!(denied, LoginReply::Rejected(model) if model == rejected()));
}

#[test]
fn a_hash_becomes_the_parameters_of_the_insert() {
    let input =
        UserInput::new(String::from("josh"), String::from("freedman"), String::from("freedman"));
    let parameters = after_hashing(&input, Ok(String::from(FREEDMAN_HASH))).unwrap();
    assert_eq!(parameters, vec![String::from("josh"), String::from(FREEDMAN_HASH)]);
}

#[test]
fn a_failed_hashing_ends_the_sign_up_with_its_error() {
    let input =
        UserInput::new(String::from("josh"), String::from("freedman"), String::from("freedman"));
    let failed = after_hashing(
        &input,
        Err(InnerError::PasswordHashingError {
            error_source: HashFailure { detail: String::from("cryptographic error") },
        }),
    );
    match failed {
        Err(ServerError(InnerError::PasswordHashingError { error_source })) => {
            assert_eq!(error_source.detail, "cryptographic error")
        }
        other => panic!("unexpected step: {:?}", other),
    }
    let lost = after_hashing(&input, joined(Err(JoinFailure::Cancelled)));
    let error = lost.unwrap_err();
    assert_eq!(error.status_code(), 500);
    assert!(matches!(
        error,
        ServerError(InnerError::JoinError { source: JoinFailure::Cancelled })
    ));
}

#[test]
fn a_stored_hash_with_costs_out_of_range_is_a_server_error() {
    let stored = "$argon2id$v=19$m=19456,t=2,p=536870912$c29tZXNhbHRzb21lc2FsdA$hbbEwOxish008cY6LWlTFMlZQQEWuKn8lzGviC/pFsU";
    let reply = login(&credentials("josh", "freedman"), Ok(Some((josh(), String::from(stored)))));
    let error = reply.unwrap_err();
    assert_eq!(error.status_code(), 500);
    assert!(matches!(error, ServerError(InnerError::PasswordHashingError { .. })));
}
