use mailjet_rs::payload::Payload;
use mailjet_rs::recipient::Recipient;
use mailjet_rs::v3::Email;

#[test]
fn email_serializes_every_field_with_empty_defaults() {
    let email = Email::new(
        "sender@company.com",
        "Mailjet Rust",
        None,
        "plain text",
        None,
        vec![Recipient::new("to@company.com")],
        None,
        None,
    );

    let body = email.to_json();
    let parsed: serde_json::Value = serde_json::from_str(&body).unwrap();
    assert_eq!(parsed.get("FromEmail").unwrap().as_str(), Some("sender@company.com"));
    assert_eq!(parsed.get("FromName").unwrap().as_str(), Some("Mailjet Rust"));
    assert_eq!(parsed.get("Subject").unwrap().as_str(), Some(""));
    assert_eq!(parsed.get("Text-part").unwrap().as_str(), Some("plain text"));
    assert_eq!(parsed.get("Html-part").unwrap().as_str(), Some(""));
    assert_eq!(parsed.get("To").unwrap().as_str(), Some("<to@company.com>"));
    assert_eq!(parsed.get("Cc").unwrap().as_str(), Some(""));
    assert_eq!(parsed.get("Bcc").unwrap().as_str(), Some(""));
}

#[test]
fn email_serializes_carbon_copies_as_header_lines() {
    let email = Email::new(
        "sender@company.com",
        "Mailjet Rust",
        Some("A subject".to_string()),
        "plain text",
        Some("<h1>html</h1>".to_string()),
        vec![
            Recipient::with_name("to@company.com", "To Person"),
            Recipient::new("second@company.com"),
        ],
        Some(vec![Recipient::new("cc@company.com")]),
        Some(vec![Recipient::new("bcc@company.com")]),
    );

    let body = email.to_json();
    let parsed: serde_json::Value = serde_json::from_str(&body).unwrap();
    assert_eq!(parsed.get("Subject").unwrap().as_str(), Some("A subject"));
    assert_eq!(parsed.get("Html-part").unwrap().as_str(), Some("<h1>html</h1>"));
    assert_eq!(
        parsed.get("To").unwrap().as_str(),
        Some("\"To Person\" <to@company.com>,<second@company.com>")
    );
    assert_eq!(parsed.get("Cc").unwrap().as_str(), Some("<cc@company.com>"));
    assert_eq!(parsed.get("Bcc").unwrap().as_str(), Some("<bcc@company.com>"));
}
