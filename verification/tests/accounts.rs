use iot_fleet::auth::{
    auth_login, auth_middleware, claim_value, password_checked, token_info, verify_password,
    MyClaim, Token,
};
use iot_fleet::config::AuthConfig;
use iot_fleet::error_app::AppError;
use iot_fleet::user::{
    get_user, hash_password, password_hashed, user_checked, user_count, user_create, user_insert,
    user_get_filter, user_soft_delete, user_update, user_update_checked, User, UserCreate,
    PASSWORD_COST,
    UserFilter, UserResponse, UserUpdate,
};

const HASH: &str =
    "$scrypt$ln=4,r=8,p=1$AQIDBAUGBwgJCgsMDQ4PEA$Z42tgknBRJQGejUSQ0fPOhbFgg6YLYrPvpA5SmKsdAs";
const ID: u128 = 0x33333333_3333_3333_3333_333333333333;
const ID_TEXT: &str = "33333333-3333-3333-3333-333333333333";

fn unauthorized<T: std::fmt::Debug>(r: Result<T, AppError>) -> String {
    match r {
        Err(AppError::Unauthorized(e)) => {
            assert_eq!(e.api_msg_error, "Unauthorized");
            e.log_msg_error
        }
        other => panic!("expected unauthorized, got {:?}", other),
    }
}

fn user() -> User {
    User {
        id: 1,
        uuid: ID,
        username: "ada".to_string(),
        email: "ada@example.org".to_string(),
        password: HASH.to_string(),
        created_at: None,
        updated_at: None,
        deleted_at: None,
    }
}

fn config(lifetime: &str) -> AuthConfig {
    AuthConfig::init_auth_config(
        "RS256".to_string(),
        "aud".to_string(),
        lifetime,
        "fleet".to_string(),
        "pub".to_string(),
        "priv".to_string(),
    )
    .unwrap()
}

fn claim(inf: Option<Vec<(&str, &str)>>) -> MyClaim {
    MyClaim {
        aud: None,
        exp: 100,
        iat: Some(10),
        iss: Some("fleet".to_string()),
        nbf: None,
        sub: None,
        inf: inf.map(|pairs| pairs.into_iter().map(|(a, b)| (a.to_string(), b.to_string())).collect()),
    }
}

fn create(password: &str, confirm: &str) -> UserCreate {
    UserCreate {
        username: "Ada".to_string(),
        email: "Ada@Example.ORG".to_string(),
        password: password.to_string(),
        confirm_password: confirm.to_string(),
    }
}

#[test]
fn the_right_password_is_accepted() {
    assert!(verify_password("correct horse", HASH).is_ok());
}

#[test]
fn a_wrong_password_is_refused() {
    assert_eq!(
        unauthorized(verify_password("wrong", HASH)),
        format!("Invalid password, password: wrong, password_hash: {}", HASH)
    );
}

#[test]
fn a_hash_that_cannot_be_read_is_refused() {
    let log = unauthorized(verify_password("correct horse", "plain"));
    assert!(log.ends_with(", password: correct horse, password_hash: plain"), "{}", log);
    assert!(!log.starts_with("Invalid password"));
    assert!(log.len() > ", password: correct horse, password_hash: plain".len());
    assert!(verify_password("x", "").is_err());
}

#[test]
fn the_verdict_follows_what_the_checks_gave() {
    assert!(password_checked("p", "h", None, true).is_ok());
    assert_eq!(
        unauthorized(password_checked("p", "h", None, false)),
        "Invalid password, password: p, password_hash: h"
    );
    assert_eq!(
        unauthorized(password_checked("p", "h", Some("odd".to_string()), true)),
        "odd, password: p, password_hash: h"
    );
}

#[test]
fn a_failed_hashing_is_reported() {
    let stored = password_hashed(Ok("h".to_string())).unwrap();
    assert_eq!(stored, "h");
    match password_hashed(Err("broken".to_string())) {
        Err(AppError::ScryptError(e)) => {
            assert_eq!(e.api_msg_error, "Scrypt error occurred");
            assert_eq!(e.log_msg_error, "broken");
        }
        other => panic!("unexpected {:?}", other),
    }
}

#[test]
fn a_token_is_built_from_its_claims() {
    let c = claim(Some(vec![("email", "a@b"), ("uuid", ID_TEXT), ("username", "ada"), ("uuid", "x")]));
    let t = Token::build(c);
    assert_eq!(t.exp, 100);
    assert_eq!(t.iat, 10);
    assert_eq!(t.iss, "fleet");
    assert_eq!(t.nbf, 0);
    assert_eq!(t.sub, "");
    assert_eq!(t.inf.uuid, ID);
    assert_eq!(t.inf.email, "a@b");
    assert_eq!(t.inf.username, "ada");
    let partial = Token::try_build(claim(Some(vec![("uuid", ID_TEXT)]))).unwrap();
    assert_eq!(partial.inf.email, "");
    assert_eq!(partial.inf.username, "");
    assert!(Token::try_build(claim(None)).is_none());
    assert!(Token::try_build(claim(Some(vec![("uuid", "nobody")]))).is_none());
    let given = Token::with_uuid(&claim(None), 5);
    assert_eq!(given.inf.uuid, 5);
}

#[test]
fn claims_are_looked_up_by_name() {
    let pairs = vec![
        ("a".to_string(), "1".to_string()),
        ("b".to_string(), "2".to_string()),
        ("a".to_string(), "3".to_string()),
    ];
    assert_eq!(claim_value(&pairs, "a"), "1");
    assert_eq!(claim_value(&pairs, "b"), "2");
    assert_eq!(claim_value(&pairs, "c"), "");
    assert_eq!(claim_value(&Vec::new(), "a"), "");
}

#[test]
fn a_token_that_does_not_decode_lets_nobody_in() {
    assert_eq!(
        unauthorized(token_info(Err("expired".to_string()), "RS256", "abc")),
        "expired, algorithm: RS256, token: abc"
    );
    assert_eq!(
        unauthorized(token_info(Ok(claim(None)), "RS256", "abc")),
        "Token without a user, algorithm: RS256, token: abc"
    );
    let t = token_info(Ok(claim(Some(vec![("uuid", ID_TEXT)]))), "RS256", "abc").unwrap();
    assert_eq!(t.inf.uuid, ID);
}

#[test]
fn the_token_is_the_header_without_the_word_bearer() {
    assert_eq!(auth_middleware(Some("Bearer abc.def")).unwrap(), "abc.def");
    assert_eq!(auth_middleware(Some("abc")).unwrap(), "abc");
    assert_eq!(auth_middleware(Some("Bearer Bearer x Bearer ")).unwrap(), "x ");
    assert_eq!(auth_middleware(Some("bearer abc")).unwrap(), "bearer abc");
    assert_eq!(auth_middleware(Some("BBearer earer x")).unwrap(), "Bearer x");
    assert_eq!(auth_middleware(Some("Bearer")).unwrap(), "Bearer");
    assert_eq!(auth_middleware(Some("Bearer ")).unwrap(), "");
    assert_eq!(auth_middleware(Some("Bearer Bearer Bearer")).unwrap(), "Bearer");
    assert_eq!(auth_middleware(Some("é Bearer ü")).unwrap(), "é ü");
    assert_eq!(auth_middleware(Some("")).unwrap(), "");
    assert_eq!(unauthorized(auth_middleware(None)), "Authorization is empty");
}

#[test]
fn the_claims_of_a_login() {
    let c = auth_login(&user(), 1_000, &config("3600")).unwrap();
    assert_eq!(c.aud, None);
    assert_eq!(c.exp, 4_600);
    assert_eq!(c.iat, 1_000);
    assert_eq!(c.nbf, 1_000);
    assert_eq!(c.iss, "fleet");
    assert_eq!(c.sub, ID_TEXT);
    assert_eq!(
        c.inf,
        vec![
            ("uuid".to_string(), ID_TEXT.to_string()),
            ("email".to_string(), "ada@example.org".to_string()),
            ("username".to_string(), "ada".to_string()),
        ]
    );
    assert_eq!(auth_login(&user(), u64::MAX - 3600, &config("3600")).unwrap().exp, u64::MAX);
    assert!(matches!(
        auth_login(&user(), u64::MAX - 3599, &config("3600")),
        Err(AppError::InternalServerError(m)) if m == "Token expiry out of range"
    ));
}

#[test]
fn filters_and_updates_must_name_something() {
    assert!(UserFilter { uuid: None, email: None }.is_empty());
    assert!(!UserFilter { uuid: Some(1), email: None }.is_empty());
    assert!(!UserFilter { uuid: None, email: Some("a".to_string()) }.is_empty());
    assert!(user_get_filter(&UserFilter { uuid: Some(1), email: None }).is_ok());
    assert!(matches!(
        user_get_filter(&UserFilter { uuid: None, email: None }),
        Err(AppError::BadRequest(m)) if m == "At least one filter parameter must be provided: 'uuid' or 'email'"
    ));
    let empty = UserUpdate { username: None, email: None };
    assert!(empty.is_empty());
    assert_eq!(empty.username(), None);
    assert_eq!(empty.email(), None);
    assert!(matches!(
        user_update_checked(&empty),
        Err(AppError::BadRequest(m)) if m == "At least one json field must be provided: 'username' or 'email'"
    ));
    let named = UserUpdate { username: Some("Bob".to_string()), email: None };
    assert!(!named.is_empty());
    assert_eq!(named.username(), Some(&"Bob".to_string()));
    assert!(user_update_checked(&named).is_ok());
}

#[test]
fn an_update_keeps_what_it_does_not_name() {
    let current = UserResponse { uuid: 1, username: "Ada".to_string(), email: "ADA@x".to_string() };
    let named = UserUpdate { username: Some("BOB".to_string()), email: None };
    assert_eq!(user_update(&named, &current), ("bob".to_string(), "ada@x".to_string()));
    let mailed = UserUpdate { username: None, email: Some("Bob@Y".to_string()) };
    assert_eq!(user_update(&mailed, &current), ("ada".to_string(), "bob@y".to_string()));
}

#[test]
fn a_registration_is_checked() {
    assert!(user_checked(&create("a", "a"), None).is_ok());
    match user_checked(&create("a", "b"), Some(1)) {
        Err(AppError::UnprocessableEntity(e)) => {
            assert_eq!(e.api_msg_error, "Password and confirm_password do not match");
            assert_eq!(
                e.log_msg_error,
                "Password and confirm password do not match, password: a, confirm_password: b"
            );
        }
        other => panic!("unexpected {:?}", other),
    }
    match user_checked(&create("a", "a"), Some(1)) {
        Err(AppError::ConstraintViolation(e)) => {
            assert_eq!(e.api_msg_error, "email already registered: Ada@Example.ORG");
            assert_eq!(e.log_msg_error, "email already registered: Ada@Example.ORG");
        }
        other => panic!("unexpected {:?}", other),
    }
    let n = create("a", "b").normalized();
    assert_eq!(n.username, "ada");
    assert_eq!(n.email, "ada@example.org");
    assert_eq!(n.password, "a");
    assert_eq!(n.confirm_password, "b");
}

#[test]
fn a_fresh_hash_accepts_its_password_and_no_other() {
    let h = hash_password("s3cret", 4).unwrap();
    assert!(h.starts_with("$scrypt$ln=4,r=8,p=1$"), "{}", h);
    assert!(verify_password("s3cret", &h).is_ok());
    assert!(verify_password("s3cret ", &h).is_err());
    let again = hash_password("s3cret", 4).unwrap();
    assert_ne!(h, again);
    assert!(verify_password("s3cret", &again).is_ok());
    assert_eq!(PASSWORD_COST, 17);
}

#[test]
fn a_cost_out_of_range_is_refused() {
    for cost in [0, 18, 255] {
        match hash_password("s3cret", cost) {
            Err(AppError::ScryptError(e)) => {
                assert_eq!(e.api_msg_error, "Scrypt error occurred");
                assert_eq!(e.log_msg_error, "Cost out of range");
            }
            other => panic!("unexpected {:?}", other),
        }
    }
    assert!(hash_password("", 1).unwrap().starts_with("$scrypt$ln=1,"));
}

#[test]
fn a_registration_is_stored_in_lower_case_with_its_hash() {
    let u = user_insert(&create("pw", "pw"), 7, "hash".to_string());
    assert_eq!(u.uuid, 7);
    assert_eq!(u.username, "ada");
    assert_eq!(u.email, "ada@example.org");
    assert_eq!(u.password_hash, "hash");
}

#[test]
fn a_registration_with_two_passwords_is_not_stored() {
    assert!(matches!(
        user_create(&create("pw", "other"), None),
        Err(AppError::UnprocessableEntity(_))
    ));
    assert!(matches!(
        user_create(&create("pw", "pw"), Some(3)),
        Err(AppError::ConstraintViolation(_))
    ));
}

#[test]
fn counts_and_rows() {
    assert_eq!(user_count(Some(0)), None);
    assert_eq!(user_count(None), None);
    assert_eq!(user_count(Some(2)), Some(2));
    let rows = vec![
        UserResponse { uuid: 1, username: "a".to_string(), email: "a@x".to_string() },
        UserResponse { uuid: 2, username: "b".to_string(), email: "b@x".to_string() },
    ];
    assert_eq!(get_user(rows).unwrap().uuid, 1);
    match get_user(Vec::new()) {
        Err(AppError::NotFound(e)) => assert_eq!(e.api_msg_error, "User not found"),
        other => panic!("unexpected {:?}", other),
    }
}

#[test]
fn a_user_is_deleted_only_by_the_user() {
    assert!(user_soft_delete(&user(), ID, "correct horse").is_ok());
    assert!(matches!(
        user_soft_delete(&user(), ID + 1, "correct horse"),
        Err(AppError::BadRequest(m)) if m == "Inconsistent data"
    ));
    assert!(matches!(user_soft_delete(&user(), ID, "wrong"), Err(AppError::Unauthorized(_))));
    assert!(matches!(user_soft_delete(&user(), ID + 1, "wrong"), Err(AppError::Unauthorized(_))));
}
