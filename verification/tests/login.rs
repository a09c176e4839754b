use login_demo::Credentials;
use login_demo::FixedRepository;
use login_demo::LoginForm;
use login_demo::LookupError;
use login_demo::UserRepository;
use login_demo::UserService;
use login_demo::Users;
use login_demo::VerificationOutcome;
use login_demo::login_from_lookup;
use login_demo::verify;
use login_demo::verify_lookup;

#[test]
fn test_login() {
    let test_user = LoginForm {
        username: "yama".to_string(),
        password: "take".to_string(),
    };

    let mock_user_repository = FixedRepository::new("yama".to_string(), "take".to_string());

    let mut service = UserService::new(mock_user_repository);
    let result = service.login(&test_user);
    assert_eq!(result, Ok(true));
}

#[test]
fn static_verify_accepts_the_configured_pair() {
    let submitted = Credentials {
        username: "take".to_string(),
        password: "yama".to_string(),
    };
    let outcome = verify(&submitted);
    assert!(outcome.is_success());
    assert!(outcome.failure_reason().is_none());
}

#[test]
fn static_verify_rejects_every_other_pair() {
    let pairs = vec![
        ("wrong", "wrong"),
        ("take", "take"),
        ("yama", "yama"),
        ("yama", "take"),
        ("", ""),
        ("take", ""),
        ("", "yama"),
        ("TAKE", "YAMA"),
    ];
    for (username, password) in pairs {
        let submitted = Credentials {
            username: username.to_string(),
            password: password.to_string(),
        };
        let outcome = verify(&submitted);
        assert!(!outcome.is_success());
        assert_eq!(outcome.failure_reason().unwrap(), "Not Found");
    }
}

#[test]
fn static_verify_is_idempotent() {
    let submitted = Credentials {
        username: "take".to_string(),
        password: "yama".to_string(),
    };
    let first = verify(&submitted);
    let second = verify(&submitted);
    assert_eq!(first.is_success(), second.is_success());
    assert_eq!(first.failure_reason(), second.failure_reason());

    let rejected = Credentials {
        username: "somebody".to_string(),
        password: "else".to_string(),
    };
    let first = verify(&rejected);
    let second = verify(&rejected);
    assert_eq!(first.is_success(), second.is_success());
    assert_eq!(first.failure_reason(), second.failure_reason());
}

#[test]
fn service_verify_checks_the_stored_password() {
    let repository = FixedRepository::new("yama".to_string(), "take".to_string());
    let mut service = UserService::new(repository);

    let good = Credentials {
        username: "yama".to_string(),
        password: "take".to_string(),
    };
    assert!(service.verify(&good).is_success());

    let bad_password = Credentials {
        username: "yama".to_string(),
        password: "wrong".to_string(),
    };
    let outcome = service.verify(&bad_password);
    assert!(!outcome.is_success());
    assert_eq!(outcome.failure_reason().unwrap(), "Not Found");

    let unknown_user = Credentials {
        username: "take".to_string(),
        password: "take".to_string(),
    };
    let outcome = service.verify(&unknown_user);
    assert!(!outcome.is_success());
    assert_eq!(outcome.failure_reason().unwrap(), "Not Found");
}

#[test]
fn service_login_reports_the_comparison() {
    let repository = FixedRepository::new("yama".to_string(), "take".to_string());
    let mut service = UserService::new(repository);

    let mismatched = LoginForm {
        username: "yama".to_string(),
        password: "not-take".to_string(),
    };
    assert_eq!(service.login(&mismatched), Ok(false));

    let unknown = LoginForm {
        username: "nobody".to_string(),
        password: "take".to_string(),
    };
    assert_eq!(service.login(&unknown), Err(()));
}

#[test]
fn service_login_is_idempotent_while_the_store_is_unchanged() {
    let repository = FixedRepository::new("yama".to_string(), "take".to_string());
    let mut service = UserService::new(repository);
    let form = LoginForm {
        username: "yama".to_string(),
        password: "take".to_string(),
    };
    let first = service.login(&form);
    let second = service.login(&form);
    assert_eq!(first, second);
    assert_eq!(first, Ok(true));
}

#[test]
fn login_from_lookup_answers_the_comparison_for_a_found_record() {
    let form = LoginForm {
        username: "yama".to_string(),
        password: "take".to_string(),
    };
    let matching = Ok(Users {
        username: "yama".to_string(),
        password: "take".to_string(),
    });
    assert_eq!(login_from_lookup(&form, matching), Ok(true));

    let mismatched = Ok(Users {
        username: "yama".to_string(),
        password: "other".to_string(),
    });
    assert_eq!(login_from_lookup(&form, mismatched), Ok(false));
}

#[test]
fn login_from_lookup_hands_every_lookup_error_on() {
    let form = LoginForm {
        username: "yama".to_string(),
        password: "take".to_string(),
    };
    assert_eq!(login_from_lookup(&form, Err(LookupError::NotFound)), Err(()));
    assert_eq!(login_from_lookup(&form, Err(LookupError::Storage)), Err(()));
}

#[test]
fn lookup_verify_success_needs_a_record_with_the_submitted_password() {
    let submitted = Credentials {
        username: "yama".to_string(),
        password: "take".to_string(),
    };
    let record = Users {
        username: "yama".to_string(),
        password: "take".to_string(),
    };
    assert!(verify_lookup(&submitted, Ok(record)).is_success());

    let other_record = Users {
        username: "yama".to_string(),
        password: "something-else".to_string(),
    };
    let outcome = verify_lookup(&submitted, Ok(other_record));
    assert!(!outcome.is_success());
    assert_eq!(outcome.failure_reason().unwrap(), "Not Found");
}

#[test]
fn lookup_verify_collapses_every_lookup_error() {
    let submitted = Credentials {
        username: "yama".to_string(),
        password: "take".to_string(),
    };
    let not_found = verify_lookup(&submitted, Err(LookupError::NotFound));
    assert!(!not_found.is_success());
    assert_eq!(not_found.failure_reason().unwrap(), "Not Found");

    let storage = verify_lookup(&submitted, Err(LookupError::Storage));
    assert!(!storage.is_success());
    assert_eq!(storage.failure_reason().unwrap(), "Not Found");
}

#[test]
fn fixed_repository_answers_its_one_record() {
    let mut repository = FixedRepository::new("yama".to_string(), "take".to_string());
    match repository.find_by_username("yama") {
        Ok(user) => {
            assert_eq!(user.username, "yama");
            assert_eq!(user.password, "take");
        }
        Err(_) => panic!("the stored key must be found"),
    }
    match repository.find_by_username("other") {
        Ok(_) => panic!("an absent key must not be found"),
        Err(e) => assert_eq!(e, LookupError::NotFound),
    }
}

#[test]
fn outcome_helpers_expose_the_branch() {
    let success = VerificationOutcome::Success;
    assert!(success.is_success());
    assert!(success.failure_reason().is_none());

    let failure = VerificationOutcome::Failure("Not Found".to_string());
    assert!(!failure.is_success());
    assert_eq!(failure.failure_reason().unwrap(), "Not Found");
}
