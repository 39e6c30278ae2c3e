use fullsend::client::{send_outcome, SendError};
use fullsend::{Client, Message};

fn pairs(entries: &[(&str, &str)]) -> Vec<(String, String)> {
    entries
        .iter()
        .map(|(key, value)| (key.to_string(), value.to_string()))
        .collect()
}

#[test]
fn form_params_in_fixed_order_with_token_auth() {
    let client = Client::builder()
        .account_sid("AC1".into())
        .auth_token("tok".into())
        .build()
        .unwrap();
    let message = Message::builder()
        .to("+15551234567".into())
        .from("+15559876543".into())
        .body("hi".into())
        .build()
        .unwrap();
    assert_eq!(
        pairs(&[("To", "+15551234567"), ("From", "+15559876543"), ("Body", "hi")]),
        message.form_params()
    );
    assert_eq!(("AC1".to_string(), "tok".to_string()), client.basic_auth());
}

#[test]
fn api_key_auth_ignores_account_sid() {
    let client = Client::builder()
        .account_sid("AC1".into())
        .api_key("KEY".into(), "SECRET".into())
        .build()
        .unwrap();
    assert_eq!(("KEY".to_string(), "SECRET".to_string()), client.basic_auth());
}

#[test]
fn media_urls_keep_their_order_in_params() {
    let message = Message::builder()
        .to("+15551234567".into())
        .from("+15559876543".into())
        .media_urls(vec!["u1".into(), "u2".into()])
        .build()
        .unwrap();
    assert_eq!(
        pairs(&[
            ("To", "+15551234567"),
            ("From", "+15559876543"),
            ("MediaUrl", "u1"),
            ("MediaUrl", "u2"),
        ]),
        message.form_params()
    );
}

#[test]
fn media_urls_replaces_single_media_url() {
    let message = Message::builder()
        .to("+15551234567".into())
        .from("+15559876543".into())
        .media_url("x".into())
        .media_urls(vec!["y".into(), "z".into()])
        .build()
        .unwrap();
    assert_eq!(
        pairs(&[
            ("To", "+15551234567"),
            ("From", "+15559876543"),
            ("MediaUrl", "y"),
            ("MediaUrl", "z"),
        ]),
        message.form_params()
    );
}

#[test]
fn media_url_twice_keeps_only_the_last() {
    let message = Message::builder()
        .to("+15551234567".into())
        .from("+15559876543".into())
        .media_url("x".into())
        .media_url("y".into())
        .build()
        .unwrap();
    assert_eq!(
        pairs(&[("To", "+15551234567"), ("From", "+15559876543"), ("MediaUrl", "y")]),
        message.form_params()
    );
}

#[test]
fn content_variables_are_not_serialized() {
    let message = Message::builder()
        .to("+15551234567".into())
        .from("+15559876543".into())
        .content_sid("HX1".into())
        .content_variables(vec![("name".to_string(), "Ada".to_string())])
        .build()
        .unwrap();
    assert_eq!(
        pairs(&[
            ("To", "+15551234567"),
            ("From", "+15559876543"),
            ("ContentSid", "HX1"),
        ]),
        message.form_params()
    );
}

#[test]
fn all_scalar_fields_in_fixed_order() {
    let message = Message::builder()
        .body("hi".into())
        .content_sid("HX1".into())
        .messaging_service_sid("MG1".into())
        .from("+15559876543".into())
        .to("+15551234567".into())
        .build()
        .unwrap();
    assert_eq!(
        pairs(&[
            ("To", "+15551234567"),
            ("From", "+15559876543"),
            ("MessagingServiceSid", "MG1"),
            ("Body", "hi"),
            ("ContentSid", "HX1"),
        ]),
        message.form_params()
    );
}

#[test]
fn messages_url_splices_the_account_sid() {
    let client = Client::builder()
        .account_sid("AC1".into())
        .auth_token("tok".into())
        .build()
        .unwrap();
    assert_eq!(
        "https://api.twilio.com/2010-04-01/Accounts/AC1/Messages.json",
        client.messages_url()
    );
}

#[test]
fn provider_rejection_carries_the_status() {
    let outcome = send_outcome(Ok(401));
    assert!(matches!(outcome, Err(SendError::Provider(401))));
}

#[test]
fn created_status_is_success() {
    assert!(send_outcome(Ok(201)).is_ok());
}

#[test]
fn success_statuses_span_the_2xx_range() {
    assert!(send_outcome(Ok(200)).is_ok());
    assert!(send_outcome(Ok(299)).is_ok());
    assert!(matches!(send_outcome(Ok(300)), Err(SendError::Provider(300))));
    assert!(matches!(send_outcome(Ok(199)), Err(SendError::Provider(199))));
}

#[test]
fn transport_failure_carries_its_cause() {
    let cause = reqwest::Client::new()
        .post("://not-a-url")
        .build()
        .unwrap_err();
    let outcome = send_outcome(Err(cause));
    assert!(matches!(outcome, Err(SendError::Network(_))));
}
