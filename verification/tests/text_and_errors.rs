use mailjet_client::text::{compose_failure, decimal_text, describe_failure};
use mailjet_client::{ApiUrl, ApiVersion, ClientError, Credential, MailjetClient};

#[test]
fn numbers_are_written_in_decimal() {
    assert_eq!(decimal_text(0), "0");
    assert_eq!(decimal_text(9), "9");
    assert_eq!(decimal_text(10), "10");
    assert_eq!(decimal_text(400), "400");
    assert_eq!(decimal_text(65535), "65535");
    assert_eq!(decimal_text(1234567890), "1234567890");
    assert_eq!(decimal_text(u64::MAX), "18446744073709551615");
}

#[test]
fn failure_detail_is_composed_of_status_and_quoted_body() {
    assert_eq!(compose_failure(404, "\"gone\""), "status_code: 404, payload: \"gone\"");
    assert_eq!(compose_failure(0, ""), "status_code: 0, payload: ");
    assert_eq!(compose_failure(65535, "x"), "status_code: 65535, payload: x");
}

#[test]
fn failure_detail_carries_status_and_body() {
    assert_eq!(describe_failure(400, "{}"), "status_code: 400, payload: \"{}\"");
    assert_eq!(
        describe_failure(0, "line\n\"quoted\"\ttab\\"),
        "status_code: 0, payload: \"line\\n\\\"quoted\\\"\\ttab\\\\\""
    );
    assert_eq!(describe_failure(500, ""), format!("status_code: {}, payload: {:#?}", 500, ""));
}

#[test]
fn every_error_has_its_description() {
    let detail = "why".to_string();
    assert_eq!(ClientError::HTTPClient.message(), "An error was found in the internal HTTP Client");
    assert_eq!(ClientError::WrongApiVersion.message(), "Wrong API version specified");
    assert_eq!(ClientError::MissingApiKey.message(), "Missing Mailjet API key token");
    assert_eq!(ClientError::UnknownError(detail.clone()).message(), "Unknown error");
    assert_eq!(ClientError::ExternalError(detail.clone()).message(), "External error");
    assert_eq!(
        ClientError::BadRequest(detail.clone()).message(),
        "The given data is formatted wrongly"
    );
    assert_eq!(ClientError::ParseError(detail.clone()).message(), "Error found while parsing data");
    assert_eq!(ClientError::ParseError(detail.clone()).detail(), Some(&detail));
    assert_eq!(ClientError::BadRequest(detail.clone()).detail(), Some(&detail));
    assert_eq!(ClientError::UnknownError(detail.clone()).detail(), Some(&detail));
    assert_eq!(ClientError::ExternalError(detail.clone()).detail(), Some(&detail));
    assert_eq!(ClientError::HTTPClient.detail(), None);
    assert_eq!(ClientError::WrongApiVersion.detail(), None);
    assert_eq!(ClientError::MissingApiKey.detail(), None);
}

#[test]
fn version_names_are_read_in_either_case() {
    assert_eq!(ApiVersion::try_from("v3"), Ok(ApiVersion::V3));
    assert_eq!(ApiVersion::try_from("V3"), Ok(ApiVersion::V3));
    assert_eq!(ApiVersion::try_from("v3.1"), Ok(ApiVersion::V3_1));
    assert_eq!(ApiVersion::try_from("V3.1"), Ok(ApiVersion::V3_1));
    assert_eq!(ApiVersion::parse("V3.1"), Ok(ApiVersion::V3_1));
    for name in ["", "v", "3", "v3.", "v3.2", "v3.10", "v31", " v3", "v3 ", "v3.1 ", "V4", "w3", "ｖ3", "v３", "3.1"] {
        assert_eq!(ApiVersion::try_from(name), Err(ClientError::WrongApiVersion), "{:?}", name);
    }
}

#[test]
fn version_is_written_as_its_path_segment() {
    assert_eq!(ApiVersion::V3.to_string(), "v3");
    assert_eq!(ApiVersion::V3_1.to_string(), "v3.1");
    assert_eq!(ApiVersion::default(), ApiVersion::V3);
    assert_eq!(ApiVersion::try_from(ApiVersion::V3_1.to_string().as_str()), Ok(ApiVersion::V3_1));
    assert_eq!(ApiUrl::contact(&ApiVersion::V3), "v3/REST/contact");
    assert_eq!(ApiUrl::contact(&ApiVersion::V3_1), "v3/REST/contact");
}

#[test]
fn credential_keeps_its_text_out_of_sight() {
    let secret = Credential::new("0123-4567".to_string());
    assert_eq!(secret.expose_secret(), "0123-4567");
    assert_eq!(secret.clone().expose_secret(), "0123-4567");
    assert!(!format!("{:?}", secret).contains("0123"));
}

#[test]
fn transport_that_cannot_be_built_is_an_http_client_failure() {
    let client = MailjetClient::new(
        Credential::new("u".to_string()),
        Credential::new("k".to_string()),
        None,
        None,
        Some("agent\nwith a line break"),
        None,
        None,
        Some(false),
    );
    assert_eq!(client.err(), Some(ClientError::HTTPClient));
    let client = MailjetClient::new(
        Credential::new("u".to_string()),
        Credential::new("k".to_string()),
        Some("jane_doe@mail.com"),
        Some("Jane Doe"),
        Some("Test"),
        Some("http://127.0.0.1:1"),
        Some("v3.1"),
        Some(false),
    )
    .expect("a client");
    assert_eq!(client.api_version(), ApiVersion::V3_1);
    assert_eq!(client.api_url(), "http://127.0.0.1:1");
    assert_eq!(client.email_name.as_deref(), Some("Jane Doe"));
    assert!(!client.sandbox_mode());
}
