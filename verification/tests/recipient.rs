use mailjet_rs::recipient::Recipient;

#[test]
fn creates_recipient_from_comma_separated() {
    let have = "foo@bar.com,rust@rust-lang.org,hyper_rs.alpha@gmail.com";
    let want = vec![
        Recipient::new("foo@bar.com"),
        Recipient::new("rust@rust-lang.org"),
        Recipient::new("hyper_rs.alpha@gmail.com"),
    ];

    for (index, recipient) in have.split(',').enumerate() {
        assert_eq!(recipient.to_string(), want.get(index).unwrap().email);
    }
}

#[test]
fn creates_comma_separated_from_recipient() {
    let have = vec![
        Recipient::with_name("rust@rust-lang.org", "The Rust Programming Language"),
        Recipient::new("foo@bar.com"),
    ];
    let want = vec![
        String::from("\"The Rust Programming Language\" <rust@rust-lang.org>"),
        String::from("<foo@bar.com>"),
    ];

    for (index, value) in have.iter().enumerate() {
        assert_eq!(value.as_comma_separated().as_str(), want.get(index).unwrap());
    }
}

#[test]
fn splits_two_addresses_in_input_order() {
    let recipients = Recipient::from_comma_separated("a@x.com,b@y.com");

    assert_eq!(recipients.len(), 2);
    assert_eq!(recipients[0].email, "a@x.com");
    assert_eq!(recipients[0].name, "");
    assert_eq!(recipients[1].email, "b@y.com");
    assert_eq!(recipients[1].name, "");
}

#[test]
fn splitting_keeps_empty_segments() {
    let recipients = Recipient::from_comma_separated("a@x.com,,b@y.com");

    assert_eq!(recipients.len(), 3);
    assert_eq!(recipients[1].email, "");
}

#[test]
fn new_recipient_has_no_name() {
    let recipient = Recipient::new("foo@bar.com");

    assert_eq!(recipient.email, "foo@bar.com");
    assert_eq!(recipient.name, "");
    assert_eq!(recipient.as_comma_separated(), "<foo@bar.com>");
}
