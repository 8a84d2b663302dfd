use makrust::configuration::{DatabaseSettings, Environment, SslMode};
use makrust::database::connect_retry_delay;
use makrust::domain::email::{check_send_reply, EmailError, QueryFailure};
use makrust::startup::Application;

fn database(require_ssl: bool) -> DatabaseSettings {
    DatabaseSettings {
        username: "postgres".to_string(),
        password: "postgres".to_string(),
        port: 5432,
        host: "localhost".to_string(),
        database_name: "postgres".to_string(),
        require_ssl,
    }
}

#[test]
fn ssl_is_required_only_when_asked() {
    assert_eq!(database(true).ssl_mode(), SslMode::Require);
    assert_eq!(database(false).ssl_mode(), SslMode::Prefer);
}

#[test]
fn environment_names_round_trip() {
    for e in [Environment::Development, Environment::Production] {
        assert_eq!(Environment::parse(e.as_str().to_string()), Ok(e));
    }
    assert_eq!(Environment::parse("DEVELOPMENT".to_string()), Ok(Environment::Development));
    assert_eq!(Environment::parse("Production".to_string()), Ok(Environment::Production));
}

#[test]
fn an_unknown_environment_is_refused_with_its_lowercase_name() {
    assert_eq!(
        Environment::parse("Staging".to_string()),
        Err("staging is not a supported environment. Use `development` or `production`.".to_string())
    );
}

#[test]
fn connection_retries_back_off_then_stop() {
    assert_eq!(connect_retry_delay(1), Some(500));
    assert_eq!(connect_retry_delay(2), Some(1000));
    assert_eq!(connect_retry_delay(3), None);
    assert_eq!(connect_retry_delay(u32::MAX), None);
}

#[test]
fn query_failures_become_email_errors() {
    assert!(matches!(
        EmailError::from_query_failure(QueryFailure::Client("refused".to_string())),
        EmailError::Connection(s) if s == "refused"
    ));
    assert!(matches!(
        EmailError::from_query_failure(QueryFailure::Api {
            status: 422,
            error_code: Some(300),
            message: Some("Invalid email request".to_string()),
        }),
        EmailError::Rejected { status: 422, error_code: Some(300), .. }
    ));
    assert!(matches!(
        EmailError::from_query_failure(QueryFailure::Json("eof".to_string())),
        EmailError::MalformedResponse(_)
    ));
    assert!(matches!(
        EmailError::from_query_failure(QueryFailure::Body("bad".to_string())),
        EmailError::MalformedResponse(_)
    ));
}

#[test]
fn a_200_reply_with_an_error_code_is_a_rejection() {
    assert!(check_send_reply(0, "OK".to_string()).is_ok());
    match check_send_reply(300, "Inactive recipient".to_string()) {
        Err(EmailError::Rejected { status, error_code, message }) => {
            assert_eq!(status, 200);
            assert_eq!(error_code, Some(300));
            assert_eq!(message.as_deref(), Some("Inactive recipient"));
        }
        _ => panic!("a non-zero error code is a rejection"),
    }
}

#[test]
fn the_application_reports_its_port() {
    assert_eq!(Application::new(8080).port(), 8080);
}
