use mailjet_rs::payload::Payload;
use mailjet_rs::recipient::Recipient;
use mailjet_rs::v3_1::Message;
use mailjet_rs::v3_1::Messages;

fn sample_message() -> Message {
    Message::new(
        Recipient::with_name("sender@company.com", "Sender"),
        vec![Recipient::new("to@company.com")],
        Some("A subject".to_string()),
        "plain text".to_string(),
        None,
    )
}

#[test]
fn missing_subject_becomes_the_empty_string() {
    let message = Message::new(
        Recipient::new("sender@company.com"),
        vec![],
        None,
        "plain text".to_string(),
        None,
    );

    assert_eq!(message.subject, "");
}

#[test]
fn message_serializes_to_the_exact_wire_text() {
    let body = sample_message().to_json();

    assert_eq!(
        body,
        "{\"From\":{\"Email\":\"sender@company.com\",\"Name\":\"Sender\"},\
         \"To\":[{\"Email\":\"to@company.com\",\"Name\":\"\"}],\
         \"Subject\":\"A subject\",\"TextPart\":\"plain text\",\"HTMLPart\":null}"
    );
}

#[test]
fn single_message_always_travels_inside_the_envelope() {
    let body = Messages::new(sample_message()).to_json();

    let parsed: serde_json::Value = serde_json::from_str(&body).unwrap();
    let root = parsed.as_object().unwrap();
    assert_eq!(root.len(), 1);
    let list = parsed.get("Messages").unwrap().as_array().unwrap();
    assert_eq!(list.len(), 1);
    let single = &list[0];
    assert_eq!(
        single.get("From").unwrap().get("Email").unwrap().as_str(),
        Some("sender@company.com")
    );
    assert_eq!(single.get("Subject").unwrap().as_str(), Some("A subject"));
    assert!(body.starts_with("{\"Messages\":["));
}
