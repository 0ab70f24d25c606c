use iot_fleet::config::{AuthConfig, MongoConfig, PostgresConfig};
use iot_fleet::error_app::{AppError, AppMsgError};

fn both(api: &str, log: &str) -> AppMsgError {
    AppMsgError { api_msg_error: api.to_string(), log_msg_error: log.to_string() }
}

#[test]
fn what_each_error_shows_to_the_caller() {
    let cases: Vec<(AppError, &str, u16)> = vec![
        (AppError::BadRequest("bad".to_string()), "bad", 400),
        (AppError::NotFound(both("api", "log")), "api", 404),
        (AppError::ConstraintViolation(both("api", "log")), "api", 409),
        (AppError::UnprocessableEntity(both("api", "log")), "api", 422),
        (AppError::DBError("secret".to_string()), "internal server error", 500),
        (AppError::ActixError("secret".to_string()), "Actix error", 500),
        (AppError::ScryptError(both("api", "log")), "api", 500),
        (AppError::Unauthorized(both("api", "log")), "Unauthorized", 401),
        (AppError::AuthError(both("api", "log")), "Auth error", 500),
        (AppError::InternalServerError("secret".to_string()), "Internal server error", 500),
        (AppError::MqttError(both("api", "log")), "api", 500),
        (AppError::MongoDBError(both("api", "log")), "api", 500),
    ];
    for (error, text, status) in cases {
        assert_eq!(error.error_response(), text, "{:?}", error);
        assert_eq!(error.status_code(), status, "{:?}", error);
        assert_eq!(error.response_body().error_message, text);
    }
}

#[test]
fn errors_made_from_the_words_of_others() {
    assert!(matches!(AppError::bad_request("x"), AppError::BadRequest(m) if m == "x"));
    assert!(matches!(AppError::from_db("x".to_string()), AppError::DBError(m) if m == "x"));
    assert!(matches!(AppError::from_actix("x".to_string()), AppError::ActixError(m) if m == "x"));
    match AppError::from_auth("x".to_string()) {
        AppError::AuthError(e) => {
            assert_eq!(e.api_msg_error, "Internal server error");
            assert_eq!(e.log_msg_error, "x");
        }
        other => panic!("unexpected {:?}", other),
    }
    match AppError::mongo("x".to_string()) {
        AppError::MongoDBError(e) => {
            assert_eq!(e.api_msg_error, "Internal server error");
            assert_eq!(e.log_msg_error, "x");
        }
        other => panic!("unexpected {:?}", other),
    }
    match AppError::mqtt("MqttError", "x".to_string()) {
        AppError::MqttError(e) => {
            assert_eq!(e.api_msg_error, "MqttError");
            assert_eq!(e.log_msg_error, "x");
        }
        other => panic!("unexpected {:?}", other),
    }
    match AppError::not_found("a".to_string(), "b".to_string()) {
        AppError::NotFound(e) => {
            assert_eq!(e.api_msg_error, "a");
            assert_eq!(e.log_msg_error, "b");
        }
        other => panic!("unexpected {:?}", other),
    }
}

#[test]
fn settings_are_handed_out_as_they_were_given() {
    let c = AuthConfig::init_auth_config(
        "RS256".to_string(),
        "aud".to_string(),
        "3600",
        "iss".to_string(),
        "pub.pem".to_string(),
        "priv.pem".to_string(),
    )
    .unwrap();
    assert_eq!(c.get_algorithm(), "RS256");
    assert_eq!(c.get_aud_claims(), "aud");
    assert_eq!(c.get_exp_claims_additional_sec(), 3600);
    assert_eq!(c.get_iss_claims(), "iss");
    assert_eq!(c.get_public_key_path(), "pub.pem");
    assert_eq!(c.get_private_key_path(), "priv.pem");
    assert!(AuthConfig::init_auth_config(
        "a".to_string(),
        "b".to_string(),
        "an hour",
        "c".to_string(),
        "d".to_string(),
        "e".to_string()
    )
    .is_none());
    let m = MongoConfig::init_mongo_config("mongodb://x".to_string());
    assert_eq!(m.get_database_url(), "mongodb://x");
    let p = PostgresConfig::init_postgres_config("10", "postgres://x".to_string()).unwrap();
    assert_eq!(p.get_max_connections(), 10);
    assert_eq!(p.get_database_url(), "postgres://x");
    assert!(PostgresConfig::init_postgres_config("ten", "postgres://x".to_string()).is_none());
}
