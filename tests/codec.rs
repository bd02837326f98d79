use chat_session::wire::{
    decode, encode, find_field, message_from_fields, DecodeError, EncodeError, Envelope, Frame,
    MsgTypes,
};

fn envelope(kind: &str, data_array: Option<Vec<&str>>, data: Option<&str>) -> Envelope {
    Envelope {
        message_type: kind.to_string(),
        data_array: data_array.map(|v| v.into_iter().map(|s| s.to_string()).collect()),
        data: data.map(|s| s.to_string()),
    }
}

#[test]
fn wire_names_round_trip() {
    for t in [MsgTypes::Users, MsgTypes::Register, MsgTypes::Message] {
        assert_eq!(MsgTypes::from_wire_name(&t.wire_name()), Some(t));
    }
    assert_eq!(MsgTypes::Users.wire_name(), "users");
    assert_eq!(MsgTypes::Register.wire_name(), "register");
    assert_eq!(MsgTypes::Message.wire_name(), "message");
    assert_eq!(MsgTypes::from_wire_name(&"Users".to_string()), None);
}

#[test]
fn encode_register_frame() {
    let e = encode(MsgTypes::Register, Some("alice".to_string())).unwrap();
    assert_eq!(e.message_type, "register");
    assert_eq!(e.data, Some("alice".to_string()));
    assert_eq!(e.data_array, None);
}

#[test]
fn encode_message_frame_keeps_empty_body() {
    let e = encode(MsgTypes::Message, Some(String::new())).unwrap();
    assert_eq!(e.message_type, "message");
    assert_eq!(e.data, Some(String::new()));
    assert_eq!(e.data_array, None);
}

#[test]
fn encode_errors() {
    assert_eq!(encode(MsgTypes::Register, None).unwrap_err(), EncodeError::MissingPayload);
    assert_eq!(encode(MsgTypes::Message, None).unwrap_err(), EncodeError::MissingPayload);
    assert_eq!(
        encode(MsgTypes::Users, Some("x".to_string())).unwrap_err(),
        EncodeError::NotOutbound
    );
}

#[test]
fn register_round_trip() {
    for name in ["alice", "", "bob smith"] {
        let e = encode(MsgTypes::Register, Some(name.to_string())).unwrap();
        match decode(&e) {
            Ok(Frame::Register(n)) => assert_eq!(n, name),
            other => panic!("unexpected {:?}", other),
        }
    }
}

#[test]
fn decode_users_frame() {
    match decode(&envelope("users", Some(vec!["alice", "bob", "alice"]), None)) {
        Ok(Frame::Users(names)) => assert_eq!(names, vec!["alice", "bob", "alice"]),
        other => panic!("unexpected {:?}", other),
    }
    match decode(&envelope("users", None, None)) {
        Ok(Frame::Users(names)) => assert!(names.is_empty()),
        other => panic!("unexpected {:?}", other),
    }
}

#[test]
fn decode_message_frame() {
    let e = envelope("message", None, Some("{\"from\":\"bob\",\"message\":\"hi\"}"));
    match decode(&e) {
        Ok(Frame::Message(m)) => {
            assert_eq!(m.from, "bob");
            assert_eq!(m.body, "hi");
        }
        other => panic!("unexpected {:?}", other),
    }
}

#[test]
fn decode_message_frame_with_escapes_and_spaces() {
    let e = envelope("message", None, Some(" { \"message\" : \"a \\\"q\\\"\", \"from\" : \"b\\u00e9\" } "));
    match decode(&e) {
        Ok(Frame::Message(m)) => {
            assert_eq!(m.from, "b\u{e9}");
            assert_eq!(m.body, "a \"q\"");
        }
        other => panic!("unexpected {:?}", other),
    }
}

#[test]
fn decode_unknown_type() {
    assert_eq!(decode(&envelope("typing", None, Some("x"))).unwrap_err(), DecodeError::UnknownType);
    assert_eq!(decode(&envelope("", None, None)).unwrap_err(), DecodeError::UnknownType);
}

#[test]
fn decode_missing_data() {
    assert_eq!(decode(&envelope("register", None, None)).unwrap_err(), DecodeError::MissingData);
    assert_eq!(decode(&envelope("message", None, None)).unwrap_err(), DecodeError::MissingData);
}

#[test]
fn decode_malformed_payload() {
    for payload in [
        "hi",
        "{\"from\":\"bob\"}",
        "{\"message\":\"hi\"}",
        "{\"from\":\"bob\",\"message\":3}",
        "[\"bob\",\"hi\"]",
        "{\"from\":\"bob\",\"message\":\"hi\"",
    ] {
        assert_eq!(
            decode(&envelope("message", None, Some(payload))).unwrap_err(),
            DecodeError::MalformedPayload,
            "payload {}",
            payload
        );
    }
}

#[test]
fn fields_lookup() {
    let fields = vec![
        ("from".to_string(), "carol".to_string()),
        ("message".to_string(), "hello".to_string()),
        ("from".to_string(), "dave".to_string()),
    ];
    assert_eq!(find_field(&fields, &"from".to_string()), Some("carol".to_string()));
    assert_eq!(find_field(&fields, &"to".to_string()), None);
    let m = message_from_fields(&fields).unwrap();
    assert_eq!(m.from, "carol");
    assert_eq!(m.body, "hello");
    let partial = vec![("from".to_string(), "carol".to_string())];
    assert_eq!(message_from_fields(&partial).unwrap_err(), DecodeError::MalformedPayload);
    assert_eq!(message_from_fields(&Vec::new()).unwrap_err(), DecodeError::MalformedPayload);
}
