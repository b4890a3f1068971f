use mailjet_client::data_objects::{
    Attachment, EmailType, Message, MessageBuilder, MessageObject, MessageProperty, NameAndEmail,
    RequestObject, ResponseError, ResponseObject, ResponseItem, ResponseStatus, SendEmailParams,
    SendResponseObject, Sender, SenderQuery, SimpleMessage, Status, StringMap, Track,
};
use mailjet_client::json::Mismatch;
use mailjet_client::wire::{FromJson, ToJson};
use serde_json::Value;

fn parsed(text: &str) -> Value {
    serde_json::from_str(text).expect("valid JSON")
}

fn contact(email: &str) -> NameAndEmail {
    NameAndEmail::new(email, None)
}

fn full_message() -> Message {
    let mut headers = StringMap::new();
    headers.insert("X-Tag".to_string(), "one".to_string());
    let mut variables = StringMap::new();
    variables.insert("day".to_string(), "Monday".to_string());
    Message {
        from: NameAndEmail::new("pilot@mailjet.com", Some("Pilot")),
        sender: Some(contact("sender@mailjet.com")),
        to: Some(vec![NameAndEmail::new("p1@mailjet.com", Some("passenger 1"))]),
        cc: Some(vec![contact("cc@mailjet.com")]),
        bcc: Some(vec![contact("bcc@mailjet.com")]),
        reply_to: Some(contact("reply@mailjet.com")),
        subject: Some("Your email flight plan!".to_string()),
        text_part: Some("Dear passenger".to_string()),
        html_part: Some("<h3>Dear passenger</h3>".to_string()),
        template_id: Some(1234567),
        template_language: Some(true),
        template_error_reporting: Some(contact("errors@mailjet.com")),
        template_error_deliver: Some(false),
        attachments: Some(vec![Attachment {
            filename: "test.txt".to_string(),
            content_type: "text/plain".to_string(),
            base_64_content: "VGhpcyBpcyB5b3VyIGF0dGFjaGVkIGZpbGUhISEK".to_string(),
        }]),
        inline_attachments: Some(Vec::new()),
        priority: Some(2),
        custom_campaign: Some("SendAPI_campaign".to_string()),
        deduplicate_campaign: Some(true),
        track_opens: Some(Track::AccountDefault),
        track_clicks: Some(Track::Disabled),
        custom_id: Some("CustomValue".to_string()),
        event_payload: Some("Eticket,1234,row,15,seat,B".to_string()),
        url_tags: Some("a=1&b=2".to_string()),
        headers: Some(headers),
        variables: Some(variables),
    }
}

#[test]
fn contact_is_made_from_its_parts() {
    let plain = NameAndEmail::new("john_doe@mail.com", None);
    assert_eq!(plain.email, "john_doe@mail.com");
    assert_eq!(plain.name, None);
    assert_eq!(plain.vars, None);
    let named = NameAndEmail::new("john_doe@mail.com", Some("John Doe"));
    assert_eq!(named.name.as_deref(), Some("John Doe"));
}

#[test]
fn default_contact_is_a_placeholder() {
    let first = NameAndEmail::default();
    let word = first.name.clone().expect("a name");
    assert!(!word.is_empty());
    assert!(word.contains('-'));
    assert_eq!(first.email, format!("{}@mail.com", word));
    assert_eq!(first.vars, None);
    let made = NameAndEmail::placeholder("rusty-nail");
    assert_eq!(made.email, "rusty-nail@mail.com");
    assert_eq!(made.name.as_deref(), Some("rusty-nail"));
    assert_eq!(made.vars, None);
    let other = NameAndEmail::placeholder("noisy-cat");
    assert_eq!(other.email, "noisy-cat@mail.com");
    assert_eq!(other.name.as_deref(), Some("noisy-cat"));
    assert_ne!(made.name, other.name);
    assert_ne!(made.email, other.email);
}

#[test]
fn builder_carries_every_field() {
    let message = MessageBuilder::default()
        .with_from("john_doe@mail.com", Some("John Doe"))
        .with_to("jane_doe@mail.com", None)
        .with_text_body("Test message")
        .build();
    assert_eq!(message.from.email, "john_doe@mail.com");
    assert_eq!(message.from.name.as_deref(), Some("John Doe"));
    let to = message.to.expect("recipients");
    assert_eq!(to.len(), 2);
    assert_eq!(to[0].email, "jane_doe@mail.com");
    assert_eq!(to[1].email, "jane_doe@mail.com");
    assert_eq!(message.text_part.as_deref(), Some("Test message"));
    assert!(message.subject.is_none());
    assert!(message.headers.is_none());
}

#[test]
fn builder_without_sender_uses_a_placeholder() {
    let message = MessageBuilder::default().build();
    let word = message.from.name.clone().expect("a name");
    assert!(!word.is_empty());
    assert_eq!(message.from.email, format!("{}@mail.com", word));
    assert!(message.from.vars.is_none());
    assert!(message.to.is_none());
}

#[test]
fn unset_fields_are_left_out_of_the_document() {
    let message = MessageBuilder::default().with_from("a@b.c", None).build();
    let text = message.to_json().to_string();
    assert_eq!(text, r#"{"From":{"Email":"a@b.c"}}"#);
    assert!(!text.contains("null"));
}

#[test]
fn minimal_document_reads_as_a_message() {
    let message = Message::from_json(&parsed(r#"{"From":{"Email":"a@b.c"}}"#)).expect("a message");
    assert_eq!(message.from.email, "a@b.c");
    assert!(message.from.name.is_none());
    assert!(message.sender.is_none());
    assert!(message.to.is_none());
    assert!(message.subject.is_none());
    assert!(message.template_id.is_none());
    assert!(message.track_opens.is_none());
    assert!(message.variables.is_none());
}

#[test]
fn message_members_carry_the_names_of_the_api() {
    let text = full_message().to_json().to_string();
    assert_eq!(
        text,
        [
            r#"{"Attachments":[{"Base64Content":"VGhpcyBpcyB5b3VyIGF0dGFjaGVkIGZpbGUhISEK","ContentType":"text/plain","Filename":"test.txt"}],"#,
            r#""Bcc":[{"Email":"bcc@mailjet.com"}],"Cc":[{"Email":"cc@mailjet.com"}],"#,
            r#""CustomCampaign":"SendAPI_campaign","CustomID":"CustomValue","DeduplicateCampaign":true,"#,
            r#""EventPayload":"Eticket,1234,row,15,seat,B","From":{"Email":"pilot@mailjet.com","Name":"Pilot"},"#,
            r#""Headers":{"X-Tag":"one"},"HtmlPart":"<h3>Dear passenger</h3>","InlineAttachments":[],"#,
            r#""Priority":2,"ReplyTo":{"Email":"reply@mailjet.com"},"Sender":{"Email":"sender@mailjet.com"},"#,
            r#""Subject":"Your email flight plan!","TemplateErrorDeliver":false,"#,
            r#""TemplateErrorReporting":{"Email":"errors@mailjet.com"},"TemplateId":1234567,"#,
            r#""TemplateLanguage":true,"TextPart":"Dear passenger","To":[{"Email":"p1@mailjet.com","Name":"passenger 1"}],"#,
            r#""TrackClicks":"disabled","TrackOpens":"account_default","URLTags":"a=1&b=2","#,
            r#""Variables":{"day":"Monday"}}"#
        ].concat()
    );
}

#[test]
fn message_reads_back_as_written() {
    let written = full_message().to_json();
    let read = Message::from_json(&written).expect("readable");
    assert_eq!(read.to_json(), written);
    assert_eq!(read.priority, Some(2));
    assert_eq!(read.track_clicks, Some(Track::Disabled));
    assert_eq!(read.template_id, Some(1234567));
    assert_eq!(read.headers.unwrap().entries, vec![("X-Tag".to_string(), "one".to_string())]);
}

#[test]
fn message_of_the_wrong_shape_is_refused() {
    let refused = [
        r#"{}"#,
        r#"[]"#,
        r#""From""#,
        r#"{"From":null}"#,
        r#"{"From":"a@b.c"}"#,
        r#"{"From":{"Name":"no address"}}"#,
        r#"{"From":{"Email":7}}"#,
        r#"{"From":{"Email":"a@b.c"},"Subject":7}"#,
        r#"{"From":{"Email":"a@b.c"},"To":{"Email":"a@b.c"}}"#,
        r#"{"From":{"Email":"a@b.c"},"To":[{"Email":"a@b.c"},{}]}"#,
        r#"{"From":{"Email":"a@b.c"},"Priority":256}"#,
        r#"{"From":{"Email":"a@b.c"},"Priority":-1}"#,
        r#"{"From":{"Email":"a@b.c"},"Priority":1.5}"#,
        r#"{"From":{"Email":"a@b.c"},"TemplateId":-3}"#,
        r#"{"From":{"Email":"a@b.c"},"TemplateLanguage":"yes"}"#,
        r#"{"From":{"Email":"a@b.c"},"TrackOpens":"sometimes"}"#,
        r#"{"From":{"Email":"a@b.c"},"Headers":{"X":1}}"#,
        r#"{"From":{"Email":"a@b.c"},"Headers":{"X":null}}"#,
        r#"{"From":{"Email":"a@b.c"},"Attachments":[{"Filename":"f"}]}"#,
    ];
    for text in refused {
        assert_eq!(Message::from_json(&parsed(text)).err(), Some(Mismatch), "{}", text);
    }
}

#[test]
fn null_members_and_unknown_members_are_passed_over() {
    let message = Message::from_json(&parsed(
        r#"{"From":{"Email":"a@b.c","Name":null},"Subject":null,"Priority":255,"TemplateId":18446744073709551615,"Unknown":[1,2,3]}"#,
    ))
    .expect("a message");
    assert!(message.from.name.is_none());
    assert!(message.subject.is_none());
    assert_eq!(message.priority, Some(255));
    assert_eq!(message.template_id, Some(u64::MAX));
}

#[test]
fn simple_message_members_carry_the_names_of_the_api() {
    let message = SimpleMessage {
        from_email: "pilot@mailjet.com".to_string(),
        from_name: "Mailjet Client test".to_string(),
        sender: Some(true),
        recipients: vec![NameAndEmail {
            email: "pilot@mailjet.com".to_string(),
            name: Some("Your Mailjet Pilot".to_string()),
            vars: Some("x".to_string()),
        }],
        to: Some("a@b.c, d@e.f".to_string()),
        cc: Some("cc@b.c".to_string()),
        bcc: Some("bcc@b.c".to_string()),
        subject: Some("Your email flight plan!".to_string()),
        text_part: Some("Dear passenger".to_string()),
        html_part: Some("<p>Dear passenger</p>".to_string()),
        attachments: None,
        inline_attachments: None,
        event_payload: Some("payload".to_string()),
        vars: Some("{}".to_string()),
    };
    let written = message.to_json();
    assert_eq!(
        written.to_string(),
        [
            r#"{"Bcc":"bcc@b.c","Cc":"cc@b.c","EventPayload":"payload","FromEmail":"pilot@mailjet.com","#,
            r#""FromName":"Mailjet Client test","Html-part":"<p>Dear passenger</p>","#,
            r#""Recipients":[{"Email":"pilot@mailjet.com","Name":"Your Mailjet Pilot","Vars":"x"}],"#,
            r#""Sender":true,"Subject":"Your email flight plan!","Text-part":"Dear passenger","#,
            r#""To":"a@b.c, d@e.f","Vars":"{}"}"#
        ].concat()
    );
    let read = SimpleMessage::from_json(&written).expect("readable");
    assert_eq!(read.to_json(), written);
    assert_eq!(read.text_part.as_deref(), Some("Dear passenger"));
}

#[test]
fn simple_message_is_read_from_the_documented_example() {
    let message = SimpleMessage::from_json(&parsed(
        r#"{"FromEmail":"pilot@mailjet.com","FromName":"Mailjet Client test","Recipients":[{"Email":"pilot@mailjet.com","Name":"Your Mailjet Pilot"}],"Subject":"Your email flight plan!","Text-part":"Dear passenger, welcome to Mailjet! May the delivery force be with you!"}"#,
    ))
    .expect("a message");
    assert_eq!(message.from_email, "pilot@mailjet.com");
    assert_eq!(message.recipients.len(), 1);
    assert_eq!(message.recipients[0].name.as_deref(), Some("Your Mailjet Pilot"));
    assert!(message.html_part.is_none());
    assert!(SimpleMessage::from_json(&parsed(r#"{"FromEmail":"a","FromName":"b"}"#)).is_err());
    assert!(SimpleMessage::from_json(&parsed(r#"{"FromEmail":"a","Recipients":[]}"#)).is_err());
}

#[test]
fn default_simple_message_is_empty() {
    let message = SimpleMessage::default();
    assert_eq!(message.from_email, "");
    assert_eq!(message.from_name, "");
    assert!(message.recipients.is_empty());
    assert!(message.subject.is_none());
    assert_eq!(message.to_json().to_string(), r#"{"FromEmail":"","FromName":"","Recipients":[]}"#);
}

#[test]
fn batch_is_written_with_its_switches_and_shared_properties() {
    let batch = SendEmailParams {
        sandbox_mode: Some(true),
        advance_error_handling: Some(false),
        globals: Some(MessageProperty {
            from: Some(contact("shared@b.c")),
            sender: None,
            cc: None,
            bcc: None,
            reply_to: None,
            subject: Some("Shared".to_string()),
            text_part: None,
            html_part: None,
            template_id: None,
            template_language: None,
            template_error_reporting: None,
            template_error_deliver: None,
            attachments: None,
            inline_attachments: None,
            priority: None,
            custom_campaign: None,
            deduplicate_campaign: None,
            track_opens: Some(Track::Enabled),
            track_clicks: None,
            custom_id: None,
            event_payload: None,
            url_tags: None,
            headers: None,
            variables: None,
        }),
        messages: vec![
            MessageBuilder::default().with_from("a@b.c", None).build(),
            MessageBuilder::default().with_from("d@e.f", None).with_text_body("hi").build(),
        ],
    };
    let written = batch.to_json();
    assert_eq!(
        written.to_string(),
        [
            r#"{"AdvanceErrorHandling":false,"Globals":{"From":{"Email":"shared@b.c"},"Subject":"Shared","TrackOpens":"enabled"},"#,
            r#""Messages":[{"From":{"Email":"a@b.c"}},{"From":{"Email":"d@e.f"},"TextPart":"hi"}],"SandboxMode":true}"#
        ].concat()
    );
    let read = SendEmailParams::from_json(&written).expect("readable");
    assert_eq!(read.messages.len(), 2);
    assert_eq!(read.sandbox_mode, Some(true));
    assert_eq!(read.to_json(), written);
    assert_eq!(
        batch.to_json_in(None).to_string(),
        [
            r#"{"AdvanceErrorHandling":false,"Globals":{"From":{"Email":"shared@b.c"},"Subject":"Shared","TrackOpens":"enabled"},"#,
            r#""Messages":[{"From":{"Email":"a@b.c"}},{"From":{"Email":"d@e.f"},"TextPart":"hi"}]}"#
        ].concat()
    );
    assert!(SendEmailParams::from_json(&parsed(r#"{"SandboxMode":true}"#)).is_err());
    assert!(SendEmailParams::from_json(&parsed(r#"{"Messages":[{}]}"#)).is_err());
    assert!(SendEmailParams::from_json(&parsed(r#"{"Messages":[],"Globals":[]}"#)).is_err());
}

#[test]
fn request_objects_tell_their_shape() {
    let message = SimpleMessage::default();
    assert!(message.as_simple_message().is_some());
    assert!(message.as_send_email_params().is_none());
    let batch = SendEmailParams {
        sandbox_mode: None,
        advance_error_handling: None,
        globals: None,
        messages: Vec::new(),
    };
    assert!(batch.as_simple_message().is_none());
    assert!(batch.as_send_email_params().is_some());
}

#[test]
fn tracking_words() {
    assert_eq!(Track::default(), Track::AccountDefault);
    assert_eq!(Track::AccountDefault.to_json().to_string(), r#""account_default""#);
    assert_eq!(Track::Disabled.to_json().to_string(), r#""disabled""#);
    assert_eq!(Track::Enabled.to_json().to_string(), r#""enabled""#);
    assert_eq!(Track::from_json(&parsed(r#""enabled""#)), Ok(Track::Enabled));
    assert_eq!(Track::from_json(&parsed(r#""disabled""#)), Ok(Track::Disabled));
    assert_eq!(Track::from_json(&parsed(r#""account_default""#)), Ok(Track::AccountDefault));
    assert_eq!(Track::from_json(&parsed(r#""Enabled""#)), Err(Mismatch));
    assert_eq!(Track::from_json(&parsed("1")), Err(Mismatch));
}

#[test]
fn sender_words() {
    assert_eq!(EmailType::default(), EmailType::Unknown);
    assert_eq!(Status::default(), Status::Active);
    assert_eq!(EmailType::Transactional.to_json().to_string(), r#""transactional""#);
    assert_eq!(EmailType::from_json(&parsed(r#""bulk""#)), Ok(EmailType::Bulk));
    assert_eq!(EmailType::from_json(&parsed(r#""unknown""#)), Ok(EmailType::Unknown));
    assert_eq!(EmailType::from_json(&parsed(r#""Bulk""#)), Err(Mismatch));
    assert_eq!(Status::Inactive.to_json().to_string(), r#""Inactive""#);
    assert_eq!(Status::from_json(&parsed(r#""Deleted""#)), Ok(Status::Deleted));
    assert_eq!(Status::from_json(&parsed(r#""Active""#)), Ok(Status::Active));
    assert_eq!(Status::from_json(&parsed(r#""active""#)), Err(Mismatch));
    assert_eq!(ResponseStatus::from_json(&parsed(r#""success""#)), Ok(ResponseStatus::Success));
    assert_eq!(ResponseStatus::from_json(&parsed(r#""error""#)), Ok(ResponseStatus::Error));
    assert_eq!(ResponseStatus::from_json(&parsed(r#""Success""#)), Err(Mismatch));
}

#[test]
fn sender_is_read_with_every_member() {
    let text = r#"{"EmailType":"transactional","IsDefaultSender":true,"Name":"n","CreatedAt":"2024-01-01","DNSID":-5,"Email":"a@b.c","Filename":"f","ID":9007199254740993,"Status":"Inactive"}"#;
    let sender = Sender::from_json(&parsed(text)).expect("a sender");
    assert_eq!(sender.email_type, EmailType::Transactional);
    assert!(sender.is_default_sender);
    assert_eq!(sender.dns_id, -5);
    assert_eq!(sender.id, 9007199254740993);
    assert_eq!(sender.status, Status::Inactive);
    assert!(Sender::from_json(&parsed(r#"{"EmailType":"transactional"}"#)).is_err());
    assert!(Sender::from_json(&parsed(&text.replace("-5", "9223372036854775808"))).is_err());
    let empty = Sender::default();
    assert_eq!(empty.id, 0);
    assert_eq!(empty.status, Status::Active);
    assert_eq!(empty.email_type, EmailType::Unknown);
}

#[test]
fn sender_query_is_written_with_the_names_of_the_api() {
    let mut query = SenderQuery::default();
    assert_eq!(query.to_json().to_string(), "{}");
    query.dns_id = Some(-12);
    query.domain = Some("mailjet.com".to_string());
    query.is_domain_sender = Some(true);
    query.limit = Some(65535);
    query.offset = Some(0);
    query.count_only = Some(false);
    query.sort = Some("ID DESC".to_string());
    assert_eq!(
        query.to_json().to_string(),
        r#"{"CountOnly":false,"DnsID":-12,"Domain":"mailjet.com","IsDomainSender":true,"Limit":65535,"Offset":0,"Sort":"ID DESC"}"#
    );
}

#[test]
fn response_objects_are_read_and_wrapped() {
    let item = MessageObject::from_json(&parsed(
        r#"{"Email":"a@b.c","MessageUUID":"u","MessageID":-1,"MessageHref":"h","Extra":0}"#,
    ))
    .expect("an item");
    assert_eq!(item.message_id, Some(-1));
    assert!(matches!(item.into_item(), ResponseItem::Message(_)));
    assert!(MessageObject::from_json(&parsed("{}")).is_ok());
    assert!(MessageObject::from_json(&parsed(r#"{"MessageID":"1"}"#)).is_err());
    assert!(MessageObject::from_json(&parsed(r#"{"MessageID":9223372036854775808}"#)).is_err());

    let answer = SendResponseObject::from_json(&parsed(r#"{"Status":"success"}"#)).expect("an answer");
    assert_eq!(answer.status, ResponseStatus::Success);
    assert!(answer.to.is_none());
    assert!(matches!(answer.into_item(), ResponseItem::Send(_)));
    assert!(SendResponseObject::from_json(&parsed(r#"{"To":[]}"#)).is_err());

    let error = ResponseError::from_json(&parsed(
        r#"{"ErrorIdentifier":"i","ErrorCode":"c","StatusCode":400,"ErrorMessage":"m","ErrorRelatedTo":["A","B"]}"#,
    ))
    .expect("an error");
    assert_eq!(error.error_related_to, vec!["A".to_string(), "B".to_string()]);
    assert!(ResponseError::from_json(&parsed(
        r#"{"ErrorIdentifier":"i","ErrorCode":"c","StatusCode":400,"ErrorMessage":"m","ErrorRelatedTo":["A",1]}"#
    ))
    .is_err());
}

#[test]
fn named_strings_keep_the_last_entry_of_a_name() {
    let mut map = StringMap::new();
    assert_eq!(map.to_json().to_string(), "{}");
    map.insert("b".to_string(), "1".to_string());
    map.insert("a".to_string(), "2".to_string());
    map.insert("b".to_string(), "3".to_string());
    assert_eq!(map.to_json().to_string(), r#"{"a":"2","b":"3"}"#);
    let read = StringMap::from_json(&parsed(r#"{"z":"26","a":"1"}"#)).expect("named strings");
    assert_eq!(read.to_json().to_string(), r#"{"a":"1","z":"26"}"#);
    assert_eq!(read.entries.len(), 2);
    assert!(StringMap::from_json(&parsed(r#"["a"]"#)).is_err());
    assert!(StringMap::from_json(&parsed(r#"{"a":true}"#)).is_err());
}

#[test]
fn plain_values_are_written_and_read() {
    assert_eq!("text".to_string().to_json(), parsed(r#""text""#));
    assert_eq!(true.to_json(), parsed("true"));
    assert_eq!(7u8.to_json(), parsed("7"));
    assert_eq!(7u16.to_json(), parsed("7"));
    assert_eq!(u64::MAX.to_json(), parsed("18446744073709551615"));
    assert_eq!(i64::MIN.to_json(), parsed("-9223372036854775808"));
    assert_eq!(vec![1u8, 2, 3].to_json(), parsed("[1,2,3]"));
    assert_eq!(String::from_json(&parsed(r#""a\"b""#)), Ok("a\"b".to_string()));
    assert_eq!(bool::from_json(&parsed("false")), Ok(false));
    assert_eq!(u8::from_json(&parsed("255")), Ok(255));
    assert_eq!(u8::from_json(&parsed("256")), Err(Mismatch));
    assert_eq!(u16::from_json(&parsed("65535")), Ok(65535));
    assert_eq!(u16::from_json(&parsed("65536")), Err(Mismatch));
    assert_eq!(u64::from_json(&parsed("-1")), Err(Mismatch));
    assert_eq!(i64::from_json(&parsed("-1")), Ok(-1));
    assert_eq!(i64::from_json(&parsed("9223372036854775807")), Ok(i64::MAX));
    assert_eq!(i64::from_json(&parsed("9223372036854775808")), Err(Mismatch));
    assert_eq!(i64::from_json(&parsed("1.0")), Err(Mismatch));
    assert_eq!(Vec::<u8>::from_json(&parsed("[1,2,300]")), Err(Mismatch));
    assert_eq!(Vec::<u8>::from_json(&parsed("[]")), Ok(Vec::new()));
    assert_eq!(Vec::<String>::from_json(&parsed(r#"["a","b"]"#)), Ok(vec!["a".to_string(), "b".to_string()]));
    assert_eq!(bool::from_json(&parsed("null")), Err(Mismatch));
}
