use mailjet_rs::attachment::Attachment;
use mailjet_rs::payload::Payload;
use mailjet_rs::recipient::Recipient;
use mailjet_rs::v3::Message;
use mailjet_rs::v3::MessageError;

fn sample_message() -> Message {
    Message::new(
        "test@company.com",
        "Company",
        Some("Subject".to_string()),
        Some("Text Part".to_string()),
    )
}

#[test]
fn it_creates_a_message_instance() {
    let message = sample_message();

    assert_eq!(message.from_email, "test@company.com".to_string());
    assert_eq!(message.from_name, "Company".to_string());
    assert_eq!(message.subject.unwrap(), "Subject".to_string());
    assert_eq!(message.text_part.unwrap(), "Text Part".to_string());
    assert_eq!(message.html_part, None);
    assert_eq!(message.vars, None);
    assert_eq!(message.mj_template_id, None);
    assert_eq!(message.use_mj_template_language, None);
    assert_eq!(message.mj_custom_id, None);
    assert_eq!(message.mj_event_payload, None);
    assert_eq!(message.headers, None);
}

#[test]
fn it_rejects_push_recipient_with_receivers() {
    let mut message = sample_message();

    assert!(message.set_receivers(vec![], None, None).is_ok());

    let res = message.push_recipient(Recipient::new("test@company.com"));
    assert_eq!(res, Err(MessageError::ConflictingAddressingMode));
}

#[test]
fn it_rejects_push_many_recipients_with_receivers() {
    let mut message = sample_message();

    assert!(message.set_receivers(vec![], None, None).is_ok());

    let res = message.push_many_recipients(vec![Recipient::new("test@company.com")]);
    assert_eq!(res, Err(MessageError::ConflictingAddressingMode));
}

#[test]
fn it_rejects_setting_receivers_with_recipients() {
    let mut message = sample_message();

    assert!(message.push_recipient(Recipient::new("test@company.com")).is_ok());

    let res = message.set_receivers(vec![], None, None);
    assert_eq!(res, Err(MessageError::ConflictingAddressingMode));
}

#[test]
fn it_attaches_an_attachment() {
    let mut message = sample_message();

    let attachment = Attachment::new("text/plain", "filename", "base64");

    message.attach(attachment);

    let message_attachment = message.attachments.unwrap();
    let message_attachment = message_attachment.get(0).unwrap();

    assert_eq!(message_attachment.content_type, "text/plain");
    assert_eq!(message_attachment.filename, "filename");
    assert_eq!(message_attachment.content, "base64");
}

#[test]
fn it_attaches_an_inline_attachment() {
    let mut message = sample_message();

    let attachment = Attachment::new("text/plain", "filename", "base64");

    message.attach_inline(attachment);

    let message_attachment = message.inline_attachments.unwrap();
    let message_attachment = message_attachment.get(0).unwrap();

    assert_eq!(message_attachment.content_type, "text/plain");
    assert_eq!(message_attachment.filename, "filename");
    assert_eq!(message_attachment.content, "base64");
}

#[test]
fn it_sets_template_id() {
    let mut message = sample_message();

    message.set_template_id(1);

    assert_eq!(message.mj_template_id, Some(1));
    assert_eq!(message.use_mj_template_language, Some(true));
}

#[test]
fn it_sets_event_payload() {
    let mut message = sample_message();

    message.set_custom_id("1".to_string());

    assert_eq!(message.mj_custom_id, Some("1".to_string()));
}

#[test]
fn it_checks_for_receivers() {
    let mut message = Message::new(
        "test@company.com",
        "Company",
        Some("Subject".to_string()),
        None,
    );

    assert_eq!(message.have_email_fields_filled(), false);

    assert!(message.set_receivers(vec![], None, None).is_ok());

    assert_eq!(message.have_email_fields_filled(), true);
}

#[test]
fn template_id_never_comes_without_the_language_flag() {
    let mut message = sample_message();

    message.set_template_id(42);

    assert_eq!(message.mj_template_id, Some(42));
    assert_eq!(message.use_mj_template_language, Some(true));

    let body = message.to_json();
    let parsed: serde_json::Value = serde_json::from_str(&body).unwrap();
    assert_eq!(parsed.get("Mj-TemplateID").unwrap().as_u64(), Some(42));
    assert_eq!(parsed.get("Mj-TemplateLanguage").unwrap().as_bool(), Some(true));
}

#[test]
fn the_largest_template_id_renders_in_full() {
    let mut message = sample_message();
    message.set_template_id(18446744073709551615);

    let body = message.to_json();
    assert!(body.contains("\"Mj-TemplateID\":18446744073709551615"));
}

#[test]
fn simple_message_serializes_to_the_exact_wire_text() {
    let mut message = Message::new("a@b.com", "Mailjet Rust", Some("sub".to_string()), Some("hi".to_string()));
    assert!(message.push_recipient(Recipient::new("c@d.com")).is_ok());

    let body = message.to_json();
    assert_eq!(
        body,
        "{\"FromEmail\":\"a@b.com\",\"FromName\":\"Mailjet Rust\",\"Subject\":\"sub\",\
         \"Text-part\":\"hi\",\"Recipients\":[{\"Email\":\"c@d.com\",\"Name\":\"\"}]}"
    );
}

#[test]
fn unset_subject_is_omitted_not_null() {
    let mut message = Message::new("a@b.com", "Sender", None, Some("hi".to_string()));
    assert!(message.push_recipient(Recipient::new("c@d.com")).is_ok());

    let body = message.to_json();
    assert!(!body.contains("Subject"));

    let parsed: serde_json::Value = serde_json::from_str(&body).unwrap();
    assert!(parsed.get("Subject").is_none());
}

#[test]
fn receivers_serialize_as_comma_joined_header_lines() {
    let mut message = Message::new("a@b.com", "Sender", None, Some("hi".to_string()));
    let res = message.set_receivers(
        vec![Recipient::new("bar@foo.com")],
        Some(vec![
            Recipient::with_name("bee@foo.com", "Bee"),
            Recipient::new("boo@foo.com"),
        ]),
        None,
    );
    assert!(res.is_ok());

    let body = message.to_json();
    let parsed: serde_json::Value = serde_json::from_str(&body).unwrap();
    assert_eq!(parsed.get("To").unwrap().as_str(), Some("<bar@foo.com>"));
    assert_eq!(
        parsed.get("Cc").unwrap().as_str(),
        Some("\"Bee\" <bee@foo.com>,<boo@foo.com>")
    );
    assert!(parsed.get("Bcc").is_none());
    assert!(parsed.get("Recipients").is_none());
}

#[test]
fn string_content_is_json_escaped() {
    let mut message = Message::new(
        "a@b.com",
        "Quo\"te \\ name",
        Some("line\nbreak\ttab".to_string()),
        Some("ctrl\u{1}char".to_string()),
    );
    assert!(message.push_recipient(Recipient::new("c@d.com")).is_ok());

    let body = message.to_json();
    let parsed: serde_json::Value = serde_json::from_str(&body).unwrap();
    assert_eq!(parsed.get("FromName").unwrap().as_str(), Some("Quo\"te \\ name"));
    assert_eq!(parsed.get("Subject").unwrap().as_str(), Some("line\nbreak\ttab"));
    assert_eq!(parsed.get("Text-part").unwrap().as_str(), Some("ctrl\u{1}char"));
}

#[test]
fn vars_and_headers_serialize_as_objects() {
    let mut message = sample_message();
    assert!(message.push_recipient(Recipient::new("c@d.com")).is_ok());
    message.vars = Some(vec![
        ("name".to_string(), mailjet_rs::json::JsonValue::Str("Foo".to_string())),
        ("count".to_string(), mailjet_rs::json::JsonValue::UInt(3)),
    ]);
    message.set_headers(vec![("Reply-To".to_string(), "other@company.com".to_string())]);

    let body = message.to_json();
    let parsed: serde_json::Value = serde_json::from_str(&body).unwrap();
    let vars = parsed.get("Vars").unwrap();
    assert_eq!(vars.get("name").unwrap().as_str(), Some("Foo"));
    assert_eq!(vars.get("count").unwrap().as_u64(), Some(3));
    let headers = parsed.get("Headers").unwrap();
    assert_eq!(headers.get("Reply-To").unwrap().as_str(), Some("other@company.com"));
}
