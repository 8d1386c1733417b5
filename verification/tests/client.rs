use mailjet_rs::client::Client;
use mailjet_rs::error::ClientError;
use mailjet_rs::recipient::Recipient;
use mailjet_rs::status::StatusCode;
use mailjet_rs::v3::Message;
use mailjet_rs::version::SendAPIVersion;

#[test]
fn it_creates_a_client_instance_send_api_v3() {
    let have = Client::new(SendAPIVersion::V3, "public_key", "private_key").unwrap();

    assert_eq!(have.api_base, "https://api.mailjet.com/v3");
    assert_eq!(have.public_key, "public_key");
    assert_eq!(have.private_key, "private_key");
}

#[test]
fn it_creates_a_client_instance_send_api_v3_1() {
    let have = Client::new(SendAPIVersion::V3_1, "public_key", "private_key").unwrap();

    assert_eq!(have.api_base, "https://api.mailjet.com/v3.1");
    assert_eq!(have.public_key, "public_key");
    assert_eq!(have.private_key, "private_key");
}

#[test]
fn it_fails_if_invalid_keys_are_provided() {
    let have = Client::new(SendAPIVersion::V3_1, "", "");

    assert_eq!(have.unwrap_err(), ClientError::MissingPublicKey);

    let have = Client::new(SendAPIVersion::V3, "public_key", "");

    assert_eq!(have.unwrap_err(), ClientError::MissingPrivateKey);
}

#[test]
fn a_custom_base_url_must_be_absolute() {
    let have = Client::with_custom_base_url("not a url", "pk", "sk");
    assert!(matches!(have, Err(ClientError::InvalidBaseUrl(u)) if u == "not a url"));

    let have = Client::with_custom_base_url("https://example.com/mail", "pk", "sk").unwrap();
    assert_eq!(have.api_base, "https://example.com/mail");
}

#[test]
fn prepared_send_request_carries_url_auth_and_body() {
    let client = Client::new(SendAPIVersion::V3, "pk", "sk").unwrap();
    let mut message = Message::new("a@b.com", "Sender", None, Some("hi".to_string()));
    assert!(message.push_recipient(Recipient::new("c@d.com")).is_ok());

    let req = client.prepare_send(&message);

    assert_eq!(req.url, "https://api.mailjet.com/v3/send");
    assert_eq!(req.content_type, "application/json");

    let encoded = req.authorization.strip_prefix("Basic ").unwrap();
    let decoded = base64::decode(encoded).unwrap();
    assert_eq!(String::from_utf8(decoded).unwrap(), "pk:sk");

    let parsed: serde_json::Value = serde_json::from_str(&req.body).unwrap();
    assert_eq!(parsed.get("FromEmail").unwrap().as_str(), Some("a@b.com"));
    assert_eq!(parsed.get("Text-part").unwrap().as_str(), Some("hi"));
    let recipients = parsed.get("Recipients").unwrap().as_array().unwrap();
    assert_eq!(recipients.len(), 1);
    assert_eq!(recipients[0].get("Email").unwrap().as_str(), Some("c@d.com"));
    assert_eq!(recipients[0].get("Name").unwrap().as_str(), Some(""));
}

#[test]
fn an_error_status_surfaces_the_body_verbatim() {
    let client = Client::new(SendAPIVersion::V3, "pk", "sk").unwrap();
    let body = "{\"ErrorMessage\":\"bad key\"}".to_string();

    let result = client.interpret_response(401, body);

    match result {
        Err(ClientError::ApiError(e)) => {
            assert_eq!(e.status_code, StatusCode::Unauthorized);
            assert_eq!(e.message, "{\"ErrorMessage\":\"bad key\"}");
        },
        other => panic!("expected an api error, got {:?}", other),
    }
}

#[test]
fn a_success_body_parses_into_sent_entries() {
    let client = Client::new(SendAPIVersion::V3, "pk", "sk").unwrap();
    let body = "{\"Sent\":[{\"Email\":\"c@d.com\",\"MessageID\":111,\
                 \"MessageUUID\":\"uuid-1\"}]}"
        .to_string();

    let response = client.interpret_response(200, body).unwrap();

    assert_eq!(response.sent.len(), 1);
    assert_eq!(response.sent[0].email, "c@d.com");
    assert_eq!(response.sent[0].message_id, 111);
    assert_eq!(response.sent[0].message_uuid, "uuid-1");
}

#[test]
fn a_malformed_success_body_is_a_typed_error() {
    let client = Client::new(SendAPIVersion::V3, "pk", "sk").unwrap();

    let result = client.interpret_response(200, "not json".to_string());
    assert!(matches!(
        result,
        Err(ClientError::MalformedResponse { body }) if body == "not json"
    ));

    let result = client.interpret_response(200, "{\"Sent\":[{\"Email\":5}]}".to_string());
    assert!(matches!(result, Err(ClientError::MalformedResponse { .. })));

    let result = client.interpret_response(200, "{\"NoSent\":[]}".to_string());
    assert!(matches!(result, Err(ClientError::MalformedResponse { .. })));
}
