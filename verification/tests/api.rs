use mailjet_client::mailjet_api::{ApiUrl, ApiVersion};
use mailjet_client::ClientError;

#[test]
fn check_api_send() {
    let cases = [("v3", "v3/send"), ("v3.1", "v3.1/send")];
    for (input, expected) in cases {
        let api_version = ApiVersion::try_from(input).expect("Failed to convert str to ApiVersion");
        assert_eq!(ApiUrl::send(&api_version), expected.to_string());
    }
}

#[test]
fn check_apiversion_fails_when_using_wrong_data() {
    let api_version = ApiVersion::try_from("default");
    assert!(api_version.is_err());
    let error = api_version.err().unwrap();
    assert_eq!(error, ClientError::WrongApiVersion);
}

#[test]
fn check_api_contact() {
    let mut api_version = ApiVersion::default();
    assert_eq!(ApiUrl::send(&api_version), "v3/send".to_string());
    api_version = ApiVersion::V3;
    assert_eq!(ApiUrl::send(&api_version), "v3/send".to_string());
    api_version = ApiVersion::V3_1;
    assert_eq!(ApiUrl::send(&api_version), "v3.1/send".to_string());
    assert_eq!(ApiUrl::contact(&api_version), "v3/REST/contact".to_string());
}
