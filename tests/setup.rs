use binday_bot::config::{load_config, page_url, user_agent, ConfigError};

#[test]
fn missing_uprn_is_reported_first() {
    let e = load_config(None, None, None).unwrap_err();
    assert_eq!(e, ConfigError::MissingUprn);
    assert_eq!(e.exit_code(), 2);
    assert!(e.message().contains("UPRN"));
}

#[test]
fn missing_webhook_url() {
    let e = load_config(Some("1".to_string()), None, Some("a@b".to_string())).unwrap_err();
    assert_eq!(e, ConfigError::MissingWebhookUrl);
    assert_eq!(e.exit_code(), 2);
    assert!(e.message().contains("WEBHOOK_URL"));
}

#[test]
fn missing_operator_email() {
    let e = load_config(Some("1".to_string()), Some("http://hook".to_string()), None).unwrap_err();
    assert_eq!(e, ConfigError::MissingOperatorEmail);
    assert_eq!(e.exit_code(), 2);
    assert!(e.message().contains("OPERATOR_EMAIL"));
}

#[test]
fn complete_configuration() {
    let c = load_config(
        Some("100012345".to_string()),
        Some("http://hook".to_string()),
        Some("me@example.org".to_string()),
    )
    .unwrap();
    assert_eq!(c.uprn, "100012345");
    assert_eq!(c.webhook_url, "http://hook");
    assert_eq!(c.operator_email, "me@example.org");
}

#[test]
fn page_url_appends_uprn_unescaped() {
    assert_eq!(
        page_url("12 34"),
        "https://www.salford.gov.uk/bins-and-recycling/bin-collection-days/your-bin-collections/?UPRN=12 34"
    );
}

#[test]
fn user_agent_names_version_and_operator() {
    assert_eq!(
        user_agent("0.1.0", "me@example.org"),
        "binday-bot/0.1.0 (reqwest/0.11.10; +me@example.org"
    );
}
