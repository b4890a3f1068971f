use mailjet_client::data_objects::{
    MessageBuilder, MessageObject, ResponseItem, SendEmailParams, SimpleMessage,
};
use mailjet_client::mailjet_client::{
    read_body, read_document, read_payload, schema_failure, transport_settings,
};
use mailjet_client::{
    ApiVersion, ClientError, Credential, HttpOutcome, MailjetClient, MailjetClientBuilder,
    PreparedRequest,
};
use std::future::Future;

fn secret(text: &str) -> Credential {
    Credential::new(text.to_string())
}

#[test]
fn client_builds() {
    let builder = MailjetClientBuilder::default().build();
    assert!(builder.is_ok());

    let builder = MailjetClientBuilder::default()
        .with_api_user(secret("0b2f6a0e-user"))
        .with_api_key(secret("0b2f6a0e-key"))
        .build();
    assert!(builder.is_ok());

    let builder = MailjetClientBuilder::new(secret("user"), secret("key")).build();
    assert!(builder.is_ok());

    let api_user = secret("c4a3b8d2-user");
    let api_key = secret("c4a3b8d2-key");
    let name = "Test User";
    let email = "test_user@mail.com";
    let url = "demo.com";
    let version = ApiVersion::V3_1;

    let builder = MailjetClientBuilder::default()
        .with_api_user(api_user.clone())
        .with_api_key(api_key.clone())
        .with_email_name(name)
        .with_email_address(email)
        .with_user_agent(name)
        .with_api_url(url)
        .with_api_version(version.to_string().as_str())
        .build();
    assert!(builder.is_ok());

    let client = builder.unwrap();
    assert_eq!(client.email_address.as_deref().unwrap(), email);
    assert_eq!(client.email_name.as_deref().unwrap(), name);
    assert_eq!(client.api_user().expose_secret(), api_user.expose_secret());
    assert_eq!(client.api_key().expose_secret(), api_key.expose_secret());
    assert_eq!(client.api_url(), url);
    assert_eq!(client.api_version(), version);
}

#[test]
fn change_api_version() {
    let mut client = MailjetClientBuilder::default().build().unwrap();
    assert_eq!(client.api_version(), ApiVersion::default());
    client.use_api_version(ApiVersion::V3_1);
    assert_eq!(client.api_version(), ApiVersion::V3_1);
    client.use_api_version(ApiVersion::V3);
    assert_eq!(client.api_version(), ApiVersion::V3);
}

#[test]
fn change_sandbox_mode() {
    let mut client = MailjetClientBuilder::default().build().unwrap();
    assert_eq!(client.sandbox_mode(), false);
    client.enable_sandbox_mode();
    assert_eq!(client.sandbox_mode(), false);
    client.use_api_version(ApiVersion::V3_1);
    client.enable_sandbox_mode();
    assert_eq!(client.sandbox_mode(), true);
    client.disable_sandbox_mode();
    assert_eq!(client.sandbox_mode(), false);
}

#[test]
fn client_from_new() {
    let client = MailjetClientBuilder::new(secret("user"), secret("key")).build();
    assert!(client.is_ok());
    let client = client.unwrap();
    assert_eq!(client.api_version(), ApiVersion::V3);
    assert_eq!(client.api_url(), "https://api.mailjet.com");
    assert_eq!(client.api_user().expose_secret(), "user");
    assert_eq!(client.api_key().expose_secret(), "key");
}

#[test]
fn client_from_builder() {
    let api_user = secret("0b2f6a0e-user");
    let api_key = secret("0b2f6a0e-key");
    let email = "janedoe@mail.com";
    let name = "jane doe";
    let agent = "test agent";

    let client_builder = MailjetClientBuilder::default()
        .with_api_key(api_key.clone())
        .with_api_user(api_user.clone())
        .with_email_address(email)
        .with_email_name(name)
        .with_user_agent(agent)
        .with_api_version(&ApiVersion::default().to_string());

    assert_eq!(client_builder.api_user().expose_secret(), "0b2f6a0e-user");
    assert_eq!(client_builder.api_key().expose_secret(), "0b2f6a0e-key");
    assert_eq!(client_builder.email_address().unwrap(), email);
    assert_eq!(client_builder.email_name().unwrap(), name);
    assert_eq!(client_builder.user_agent().unwrap(), agent);
    assert_eq!(client_builder.api_version().unwrap(), ApiVersion::default().to_string());
    assert_eq!(client_builder.api_url(), Some("https://api.mailjet.com"));

    let client_builder = MailjetClientBuilder::default()
        .with_api_key(api_key)
        .with_api_user(api_user)
        .with_email_address(email)
        .with_email_name(name)
        .with_user_agent(agent)
        .with_api_version(&ApiVersion::default().to_string())
        .build();

    assert!(client_builder.is_ok());
    let client = client_builder.unwrap();
    assert_eq!(client.email_address(), Some(email));
    assert_eq!(client.email_name(), Some(name));
}

#[test]
fn builder_holds_what_it_was_given() {
    let fresh = MailjetClientBuilder::new(secret("user"), secret("key"));
    assert_eq!(fresh.api_user().expose_secret(), "user");
    assert_eq!(fresh.api_key().expose_secret(), "key");
    assert_eq!(fresh.email_address(), None);
    assert_eq!(fresh.email_name(), None);
    assert_eq!(fresh.user_agent(), None);
    assert_eq!(fresh.api_url(), None);
    assert_eq!(fresh.api_version(), None);

    let initial = MailjetClientBuilder::default();
    assert_eq!(initial.api_user().expose_secret(), "None");
    assert_eq!(initial.api_key().expose_secret(), "None");
    assert_eq!(initial.user_agent(), None);
    assert_eq!(initial.api_url(), Some("https://api.mailjet.com"));
    assert_eq!(initial.api_version(), Some("v3"));

    let set = initial.with_api_url("http://localhost").with_api_version("V3.1");
    assert_eq!(set.api_url(), Some("http://localhost"));
    assert_eq!(set.api_version(), Some("V3.1"));
    assert_eq!(set.api_user().expose_secret(), "None");
}

#[test]
fn transport_settings_fall_back_to_the_defaults() {
    assert_eq!(transport_settings(None, None), ("mailjet_client/0.1.0", true));
    assert_eq!(transport_settings(Some("Test"), None), ("Test", true));
    assert_eq!(transport_settings(None, Some(false)), ("mailjet_client/0.1.0", false));
    assert_eq!(transport_settings(Some("agent/2"), Some(true)), ("agent/2", true));
}

#[test]
fn default_builder_holds_placeholder_credentials() {
    let client = MailjetClientBuilder::default().build().unwrap();
    assert_eq!(client.api_user().expose_secret(), "None");
    assert_eq!(client.api_key().expose_secret(), "None");
    assert_eq!(client.api_version(), ApiVersion::V3);
}

#[test]
fn client_refuses_unknown_version() {
    let client = MailjetClientBuilder::default().with_api_version("v4").build();
    assert_eq!(client.err(), Some(ClientError::WrongApiVersion));
    let client = MailjetClient::new(
        secret("u"),
        secret("k"),
        None,
        None,
        None,
        None,
        Some("3.1"),
        None,
    );
    assert_eq!(client.err(), Some(ClientError::WrongApiVersion));
}

#[test]
fn send_prepares_the_request_of_the_selected_version() {
    let mut client = MailjetClientBuilder::default().build().unwrap();
    let mut message = SimpleMessage::default();
    message.from_email = "pilot@mailjet.com".to_string();
    message.subject = Some("Hello".to_string());

    let request = client.send_email(&message).unwrap();
    assert_eq!(request.api_version, ApiVersion::V3);
    assert_eq!(request.url, "https://api.mailjet.com/v3/send");
    assert_eq!(
        request.body,
        r#"{"FromEmail":"pilot@mailjet.com","FromName":"","Recipients":[],"Subject":"Hello"}"#
    );

    client.use_api_version(ApiVersion::V3_1);
    let refused = client.send_email(&message);
    assert_eq!(refused.err(), Some(ClientError::UnknownError("Invalid request".to_string())));

    let batch = SendEmailParams {
        sandbox_mode: None,
        advance_error_handling: None,
        globals: None,
        messages: vec![MessageBuilder::default().with_from("a@b.c", None).build()],
    };
    let request = client.send_email(&batch).unwrap();
    assert_eq!(request.api_version, ApiVersion::V3_1);
    assert_eq!(request.url, "https://api.mailjet.com/v3.1/send");
    assert_eq!(
        request.body,
        r#"{"Messages":[{"From":{"Email":"a@b.c"}}],"SandboxMode":false}"#
    );

    client.use_api_version(ApiVersion::V3);
    let refused = client.send_email(&batch);
    assert_eq!(
        refused.err(),
        Some(ClientError::BadRequest("Wrong parameters for the request".to_string()))
    );
}

#[test]
fn sandbox_switch_of_the_client_fills_in_for_the_batch() {
    let mut client = MailjetClientBuilder::default().with_api_version("V3.1").build().unwrap();
    client.enable_sandbox_mode();
    let mut batch = SendEmailParams {
        sandbox_mode: None,
        advance_error_handling: Some(true),
        globals: None,
        messages: Vec::new(),
    };
    let request = client.send_email(&batch).unwrap();
    assert_eq!(request.body, r#"{"AdvanceErrorHandling":true,"Messages":[],"SandboxMode":true}"#);

    batch.sandbox_mode = Some(false);
    let request = client.send_email(&batch).unwrap();
    assert_eq!(request.body, r#"{"AdvanceErrorHandling":true,"Messages":[],"SandboxMode":true}"#);

    client.disable_sandbox_mode();
    let request = client.send_email(&batch).unwrap();
    assert_eq!(request.body, r#"{"AdvanceErrorHandling":true,"Messages":[],"SandboxMode":false}"#);
    batch.sandbox_mode = None;
    let request = client.send_email(&batch).unwrap();
    assert_eq!(request.body, r#"{"AdvanceErrorHandling":true,"Messages":[],"SandboxMode":false}"#);
    batch.sandbox_mode = Some(true);
    let request = client.send_email(&batch).unwrap();
    assert_eq!(request.body, r#"{"AdvanceErrorHandling":true,"Messages":[],"SandboxMode":true}"#);
}

fn request(api_version: ApiVersion) -> PreparedRequest {
    PreparedRequest { api_version, url: String::new(), body: String::new() }
}

fn answer(status_code: u16, body: &str) -> HttpOutcome {
    HttpOutcome::Answer { status_code, body: body.to_string() }
}

#[test]
fn bad_request_is_reported_with_status_and_body() {
    for version in [ApiVersion::V3, ApiVersion::V3_1] {
        let result = request(version).read_response(answer(400, "{\"ErrorMessage\":\"no\"}"));
        assert_eq!(
            result.err(),
            Some(ClientError::BadRequest(
                "status_code: 400, payload: \"{\\\"ErrorMessage\\\":\\\"no\\\"}\"".to_string()
            ))
        );
    }
}

#[test]
fn other_status_is_an_unknown_error() {
    let result = request(ApiVersion::V3_1).read_response(answer(500, "down"));
    assert_eq!(
        result.err(),
        Some(ClientError::UnknownError("status_code: 500, payload: \"down\"".to_string()))
    );
    let result = request(ApiVersion::V3_1).read_response(answer(201, "{\"Messages\":[]}"));
    assert_eq!(
        result.err(),
        Some(ClientError::UnknownError(
            "status_code: 201, payload: \"{\\\"Messages\\\":[]}\"".to_string()
        ))
    );
    let result = request(ApiVersion::V3).read_response(answer(65535, ""));
    assert_eq!(
        result.err(),
        Some(ClientError::UnknownError("status_code: 65535, payload: \"\"".to_string()))
    );
}

#[test]
fn transport_failures_are_classified() {
    let result = request(ApiVersion::V3)
        .read_response(HttpOutcome::NoResponse("connection refused".to_string()));
    assert_eq!(result.err(), Some(ClientError::ExternalError("connection refused".to_string())));
    let result = request(ApiVersion::V3_1)
        .read_response(HttpOutcome::UnreadableBody("broken pipe".to_string()));
    assert_eq!(result.err(), Some(ClientError::UnknownError("broken pipe".to_string())));
}

#[test]
fn mocktest_send_email_v3() {
    let body = r#"{"Sent":[{"Email":"pilot@mailjet.com","MessageID":19421777835146490,"MessageUUID":"1ab23cd4-e567-8901-2345-6789f0gh1i2j"},{"Email":"copilot@mailjet.com"}]}"#;
    for status in [200u16, 201u16] {
        let result = request(ApiVersion::V3).read_response(answer(status, body));
        assert!(result.is_ok());
        let response = result.unwrap();
        assert_eq!(response.status_code, status);
        let payload = response.payload.expect("a payload");
        assert_eq!(payload.len(), 2);
        match &payload[0] {
            ResponseItem::Message(MessageObject { email, message_uuid, message_id, message_href }) => {
                assert_eq!(email.as_deref(), Some("pilot@mailjet.com"));
                assert_eq!(message_uuid.as_deref(), Some("1ab23cd4-e567-8901-2345-6789f0gh1i2j"));
                assert_eq!(*message_id, Some(19421777835146490));
                assert_eq!(*message_href, None);
            }
            other => panic!("unexpected item {:?}", other),
        }
    }
}

#[test]
fn send_response_v3_1_is_read_item_by_item() {
    let body = r#"{"Messages":[{"Status":"success","To":[{"Email":"p@q.r","MessageUUID":"u","MessageID":1,"MessageHref":"https://api.mailjet.com/v3/message/1"}],"Cc":[],"Bcc":[]},{"Status":"error","Errors":[{"ErrorIdentifier":"id","ErrorCode":"mj-0004","StatusCode":400,"ErrorMessage":"bad","ErrorRelatedTo":["From"]}]}]}"#;
    let response = request(ApiVersion::V3_1).read_response(answer(200, body)).unwrap();
    assert_eq!(response.status_code, 200);
    let payload = response.payload.unwrap();
    assert_eq!(payload.len(), 2);
    match &payload[0] {
        ResponseItem::Send(item) => {
            assert_eq!(item.status, mailjet_client::data_objects::ResponseStatus::Success);
            assert!(item.errors.is_none());
            assert_eq!(item.to.as_ref().unwrap().len(), 1);
            assert_eq!(item.to.as_ref().unwrap()[0].message_id, Some(1));
            assert_eq!(item.cc.as_ref().unwrap().len(), 0);
        }
        other => panic!("unexpected item {:?}", other),
    }
    match &payload[1] {
        ResponseItem::Send(item) => {
            assert_eq!(item.status, mailjet_client::data_objects::ResponseStatus::Error);
            let errors = item.errors.as_ref().unwrap();
            assert_eq!(errors[0].status_code, 400);
            assert_eq!(errors[0].error_related_to, vec!["From".to_string()]);
        }
        other => panic!("unexpected item {:?}", other),
    }
}

#[test]
fn body_of_the_wrong_shape_fails_by_version() {
    let result = request(ApiVersion::V3_1).read_response(answer(200, "{\"Sent\":[]}"));
    assert_eq!(
        result.err(),
        Some(ClientError::ParseError(
            "the response does not follow the expected schema".to_string()
        ))
    );
    let result = request(ApiVersion::V3).read_response(answer(200, "{\"Messages\":[]}"));
    assert_eq!(
        result.err(),
        Some(ClientError::UnknownError(
            "the response does not follow the expected schema".to_string()
        ))
    );
    let result = request(ApiVersion::V3_1).read_response(answer(200, "not json"));
    let reason = serde_json::from_str::<serde_json::Value>("not json").unwrap_err().to_string();
    assert_eq!(result.err(), Some(ClientError::ParseError(reason)));
    let result = request(ApiVersion::V3).read_response(answer(201, "{"));
    let reason = serde_json::from_str::<serde_json::Value>("{").unwrap_err().to_string();
    assert_eq!(result.err(), Some(ClientError::UnknownError(reason)));
    let result =
        request(ApiVersion::V3_1).read_response(answer(200, "{\"Messages\":[{\"Status\":\"maybe\"}]}"));
    assert!(matches!(result, Err(ClientError::ParseError(_))));
}

#[test]
fn document_of_a_response_is_read_by_version() {
    let sent: serde_json::Value =
        serde_json::from_str(r#"{"Sent":[{"Email":"a@b.c"},{},{"MessageID":3}],"Messages":7}"#).unwrap();
    let payload = read_payload(ApiVersion::V3, &sent).expect("a payload");
    assert_eq!(payload.len(), 3);
    assert!(matches!(&payload[2], ResponseItem::Message(m) if m.message_id == Some(3)));
    assert!(read_payload(ApiVersion::V3_1, &sent).is_err());

    let response = read_document(ApiVersion::V3, 201, &sent).expect("a response");
    assert_eq!(response.status_code, 201);
    assert_eq!(response.payload.map(|p| p.len()), Some(3));
    assert_eq!(
        read_document(ApiVersion::V3_1, 200, &sent).err(),
        Some(ClientError::ParseError(
            "the response does not follow the expected schema".to_string()
        ))
    );

    let empty: serde_json::Value = serde_json::from_str(r#"{"Messages":[]}"#).unwrap();
    let response = read_document(ApiVersion::V3_1, 200, &empty).expect("a response");
    assert_eq!(response.payload.map(|p| p.len()), Some(0));
    for text in ["[]", "null", r#"{"Messages":null}"#, r#"{"Messages":{}}"#, r#"{"messages":[]}"#] {
        let document: serde_json::Value = serde_json::from_str(text).unwrap();
        assert!(read_payload(ApiVersion::V3_1, &document).is_err(), "{}", text);
    }

    assert_eq!(
        schema_failure(ApiVersion::V3, "why".to_string()).err(),
        Some(ClientError::UnknownError("why".to_string()))
    );
    assert_eq!(
        schema_failure(ApiVersion::V3_1, "why".to_string()).err(),
        Some(ClientError::ParseError("why".to_string()))
    );
    assert!(read_body(ApiVersion::V3_1, 200, r#"{"Messages":[{"Status":"error"}]}"#).is_ok());
}

#[test]
fn post_goes_to_the_send_endpoint_of_the_selected_version() {
    let mut client = MailjetClientBuilder::default().with_api_url("http://localhost:8080").build().unwrap();
    assert_eq!(client.send_url(), "http://localhost:8080/v3/send");
    let request = client.post_to_send("{}".to_string());
    assert_eq!(request.api_version, ApiVersion::V3);
    assert_eq!(request.url, "http://localhost:8080/v3/send");
    assert_eq!(request.body, "{}");
    client.use_api_version(ApiVersion::V3_1);
    assert_eq!(client.send_url(), "http://localhost:8080/v3.1/send");
    let request = client.post_to_send("[]".to_string());
    assert_eq!(request.api_version, ApiVersion::V3_1);
    assert_eq!(request.url, "http://localhost:8080/v3.1/send");
    assert_eq!(request.body, "[]");
}

#[test]
fn test_send_empty_email_v3_1() {
    let message = MessageBuilder::default().build();
    let batch = SendEmailParams {
        sandbox_mode: Some(true),
        advance_error_handling: None,
        globals: None,
        messages: Vec::from([message]),
    };
    let mut client = MailjetClientBuilder::default().build().unwrap();
    client.use_api_version(ApiVersion::V3_1);
    let request = client.send_email(&batch).expect("a request");
    assert_eq!(request.url, "https://api.mailjet.com/v3.1/send");
    let word = batch.messages[0].from.name.clone().expect("a name");
    assert!(!word.is_empty());
    assert_eq!(
        request.body,
        format!(
            r#"{{"Messages":[{{"From":{{"Email":"{word}@mail.com","Name":"{word}"}}}}],"SandboxMode":true}}"#
        )
    );

    let refusal = r#"{"ErrorIdentifier":"06df1144","ErrorCode":"mj-0031","StatusCode":400,"ErrorMessage":"At least \"HTMLPart\", \"TextPart\" or \"TemplateID\" must be provided."}"#;
    let result = request.read_response(answer(400, refusal));
    assert!(result.is_err());
    assert!(matches!(result, Err(ClientError::BadRequest(_))));
}

#[test]
fn default_simple_message_is_refused_as_a_bad_request() {
    let client = MailjetClientBuilder::default().build().unwrap();
    let request = client.send_email(&SimpleMessage::default()).expect("a request");
    assert_eq!(request.url, "https://api.mailjet.com/v3/send");
    assert_eq!(request.body, r#"{"FromEmail":"","FromName":"","Recipients":[]}"#);
    let result = request.read_response(answer(400, r#"{"ErrorMessage":"empty"}"#));
    assert_eq!(
        result.err(),
        Some(ClientError::BadRequest(
            "status_code: 400, payload: \"{\\\"ErrorMessage\\\":\\\"empty\\\"}\"".to_string()
        ))
    );
}

#[test]
fn client_is_built_around_a_transport() {
    let transport = reqwest_middleware::ClientBuilder::new(reqwest::Client::new()).build();
    let client = MailjetClient::from_transport(
        Ok(transport),
        secret("user"),
        secret("key"),
        Some("jane_doe@mail.com"),
        None,
        Some("http://localhost"),
        ApiVersion::V3_1,
    )
    .expect("a client");
    assert_eq!(client.api_version(), ApiVersion::V3_1);
    assert_eq!(client.api_url(), "http://localhost");
    assert_eq!(client.email_address.as_deref(), Some("jane_doe@mail.com"));
    assert_eq!(client.email_address(), Some("jane_doe@mail.com"));
    assert_eq!(client.email_name, None);
    assert_eq!(client.email_name(), None);
    assert_eq!(client.api_user().expose_secret(), "user");
    assert!(!client.sandbox_mode());
    let _ = client.http_client();

    let failure = reqwest::Client::builder().user_agent("line\nbreak").build().unwrap_err();
    let refused = MailjetClient::from_transport(
        Err(failure),
        secret("user"),
        secret("key"),
        None,
        None,
        None,
        ApiVersion::V3,
    );
    assert_eq!(refused.err(), Some(ClientError::HTTPClient));
}

#[test]
fn transport_refuses_plain_http_unless_told_otherwise() {
    let client = MailjetClientBuilder::default().build().unwrap();
    let request = client
        .http_client()
        .post("http://api.mailjet.com/v3/send")
        .build()
        .expect("a request");
    let mut posting = Box::pin(client.http_client().execute(request));
    let waker = std::task::Waker::noop();
    let mut context = std::task::Context::from_waker(waker);
    match posting.as_mut().poll(&mut context) {
        std::task::Poll::Ready(Err(error)) => {
            assert_eq!(
                error.to_string(),
                "builder error for url (http://api.mailjet.com/v3/send)"
            );
        }
        std::task::Poll::Ready(Ok(_)) => panic!("plain HTTP was let through"),
        std::task::Poll::Pending => panic!("plain HTTP was not refused at once"),
    }
}
