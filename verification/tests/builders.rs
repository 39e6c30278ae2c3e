use fullsend::client::ClientBuilderError;
use fullsend::message::MessageBuilderError;
use fullsend::{Client, Message};

#[test]
fn builder_requires_auth_method() {
    let builder_result = Client::builder().account_sid("".into()).build();
    assert_eq!(Err(ClientBuilderError::NoAuthMethodSet), builder_result);
}

#[test]
fn builder_requires_sid() {
    let builder_result = Client::builder().auth_token("".into()).build();
    assert_eq!(Err(ClientBuilderError::NoAccountSidSet), builder_result);
}

#[test]
fn valid_builder_returns_client() {
    let client = Client::builder()
        .account_sid("".into())
        .auth_token("".into())
        .build();
    assert!(client.is_ok());
}

#[test]
fn builder_requires_message() {
    let builder_result = Message::builder().to("".into()).from("".into()).build();
    assert_eq!(Err(MessageBuilderError::NoMessageSet), builder_result);
}

#[test]
fn builder_requires_sender() {
    let builder_result = Message::builder().to("".into()).build();
    assert_eq!(Err(MessageBuilderError::NoSenderSet), builder_result);
}

#[test]
fn builder_requires_to() {
    let builder_result = Message::builder().build();
    assert_eq!(Err(MessageBuilderError::NoToSet), builder_result);
}

#[test]
fn valid_builder_returns_message() {
    let message = Message::builder()
        .to("".into())
        .from("".into())
        .body("".into())
        .build();
    assert!(message.is_ok());
}

#[test]
fn client_builder_reports_missing_sid_first() {
    let builder_result = Client::builder().build();
    assert_eq!(Err(ClientBuilderError::NoAccountSidSet), builder_result);
}

#[test]
fn client_builder_recovers_after_failed_build() {
    let mut builder = Client::builder();
    builder.account_sid("AC1".into());
    assert_eq!(
        Err(ClientBuilderError::NoAuthMethodSet),
        builder.build()
    );
    builder.auth_token("tok".into());
    assert!(builder.build().is_ok());
}

#[test]
fn client_builder_overwrites_auth_method() {
    let client = Client::builder()
        .account_sid("AC1".into())
        .auth_token("tok".into())
        .api_key("KEY".into(), "SECRET".into())
        .build()
        .unwrap();
    assert_eq!(("KEY".to_string(), "SECRET".to_string()), client.basic_auth());
}

#[test]
fn message_builder_checks_sender_before_content() {
    let builder_result = Message::builder().to("+15551234567".into()).build();
    assert_eq!(Err(MessageBuilderError::NoSenderSet), builder_result);
}

#[test]
fn empty_media_list_is_not_content() {
    let builder_result = Message::builder()
        .to("+15551234567".into())
        .from("+15559876543".into())
        .media_urls(vec![])
        .build();
    assert_eq!(Err(MessageBuilderError::NoMessageSet), builder_result);
}

#[test]
fn messaging_service_sid_is_a_sender() {
    let message = Message::builder()
        .to("+15551234567".into())
        .messaging_service_sid("MG1".into())
        .body("hi".into())
        .build();
    assert!(message.is_ok());
}

#[test]
fn content_sid_is_content() {
    let message = Message::builder()
        .to("+15551234567".into())
        .from("+15559876543".into())
        .content_sid("HX1".into())
        .build();
    assert!(message.is_ok());
}

#[test]
fn client_build_is_repeatable() {
    let mut builder = Client::builder();
    builder.account_sid("AC1".into());
    builder.auth_token("tok".into());
    let first = builder.build();
    let second = builder.build();
    assert!(first.is_ok());
    assert_eq!(first, second);
}

#[test]
fn message_build_is_repeatable() {
    let builder = Message::builder()
        .to("+15551234567".into())
        .from("+15559876543".into())
        .body("hi".into());
    let first = builder.build();
    let second = builder.build();
    assert!(first.is_ok());
    assert_eq!(first, second);
}
