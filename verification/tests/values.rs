use redis::enums::{ConnectFailure, Error, KeyType, RangeBoundary, ShutdownMode, ToStr, Value};

#[test]
fn bytes_come_from_bulk_strings_only() {
    assert_eq!(Value::Data(vec![1, 2, 255]).get_bytes(), Some(vec![1, 2, 255]));
    assert_eq!(Value::Data(Vec::new()).get_bytes(), Some(Vec::new()));
    assert_eq!(Value::Invalid.get_bytes(), None);
    assert_eq!(Value::Nil.get_bytes(), None);
    assert_eq!(Value::Int(7).get_bytes(), None);
    assert_eq!(Value::Bulk(vec![Value::Data(vec![1])]).get_bytes(), None);
    assert_eq!(Value::Error(Error::ResponseError, "ERR".to_string()).get_bytes(), None);
    assert_eq!(Value::Success.get_bytes(), None);
    assert_eq!(Value::Status("PONG".to_string()).get_bytes(), None);
}

#[test]
fn text_comes_from_status_and_bulk_strings() {
    assert_eq!(Value::Status("PONG".to_string()).get_string(), Some("PONG".to_string()));
    assert_eq!(Value::Data(b"hello".to_vec()).get_string(), Some("hello".to_string()));
    assert_eq!(Value::Data(Vec::new()).get_string(), Some(String::new()));
    assert_eq!(
        Value::Data(vec![0xe2, 0x82, 0xac, 0x20, 0xc3, 0xa9]).get_string(),
        Some("\u{20ac} \u{e9}".to_string())
    );
    assert_eq!(Value::Invalid.get_string(), None);
    assert_eq!(Value::Nil.get_string(), None);
    assert_eq!(Value::Int(42).get_string(), None);
    assert_eq!(Value::Bulk(Vec::new()).get_string(), None);
    assert_eq!(Value::Error(Error::UnknownError, "x".to_string()).get_string(), None);
    assert_eq!(Value::Success.get_string(), None);
}

#[test]
fn bytes_that_are_no_text_give_none() {
    assert_eq!(Value::Data(vec![0xff, 0xfe]).get_string(), None);
    assert_eq!(Value::Data(vec![0xc0, 0x80]).get_string(), None);
    assert_eq!(Value::Data(vec![0xed, 0xa0, 0x80]).get_string(), None);
    assert_eq!(Value::Data(vec![0x61, 0xe2, 0x82]).get_string(), None);
}

#[test]
fn get_as_parses_the_text() {
    assert_eq!(Value::Data(b"42".to_vec()).get_as::<i64>(), Some(42));
    assert_eq!(Value::Status("-7".to_string()).get_as::<i32>(), Some(-7));
    assert_eq!(Value::Data(b"2.5".to_vec()).get_as::<f64>(), Some(2.5));
    assert_eq!(Value::Data(b"true".to_vec()).get_as::<bool>(), Some(true));
    assert_eq!(Value::Status("OK".to_string()).get_as::<String>(), Some("OK".to_string()));
}

#[test]
fn get_as_gives_none_without_text_or_parse() {
    assert_eq!(Value::Nil.get_as::<i64>(), None);
    assert_eq!(Value::Int(42).get_as::<i64>(), None);
    assert_eq!(Value::Success.get_as::<String>(), None);
    assert_eq!(Value::Data(vec![0xff]).get_as::<String>(), None);
    assert_eq!(Value::Data(b"forty-two".to_vec()).get_as::<i64>(), None);
    assert_eq!(Value::Data(b"300".to_vec()).get_as::<u8>(), None);
}

#[test]
fn range_boundaries_render_in_range_syntax() {
    assert_eq!(RangeBoundary::Open(format!("{}", 5.0f32)).to_str(), "(5");
    assert_eq!(RangeBoundary::Closed(format!("{}", 5.0f32)).to_str(), "5");
    assert_eq!(RangeBoundary::Inf.to_str(), "+inf");
    assert_eq!(RangeBoundary::NegInf.to_str(), "-inf");
    assert_eq!(RangeBoundary::Open(format!("{}", -1.5f32)).to_str(), "(-1.5");
    assert_eq!(RangeBoundary::Closed(String::new()).to_str(), "");
}

#[test]
fn replies_are_copied_deeply() {
    let reply = Value::Bulk(vec![
        Value::Int(1),
        Value::Data(vec![2, 3]),
        Value::Bulk(vec![Value::Nil, Value::Status("OK".to_string()), Value::Bulk(Vec::new())]),
        Value::Error(Error::ExtensionError("WRONGTYPE".to_string()), "not a list".to_string()),
        Value::Success,
        Value::Invalid,
    ]);
    let copy = reply.clone();
    assert_eq!(copy, reply);
    assert_eq!(Error::ExtensionError("MOVED".to_string()).clone(), Error::ExtensionError("MOVED".to_string()));
    assert_eq!(Error::NoScriptError.clone(), Error::NoScriptError);
}

#[test]
fn unknown_error_codes_are_kept() {
    let reply = Value::Error(Error::ExtensionError("CLUSTERDOWN".to_string()), "down".to_string());
    match reply {
        Value::Error(Error::ExtensionError(code), message) => {
            assert_eq!(code, "CLUSTERDOWN");
            assert_eq!(message, "down");
        }
        _ => panic!("the reply changed its shape"),
    }
}

#[test]
fn plain_enumerations_compare_by_variant() {
    assert_eq!(ConnectFailure::InvalidURI.clone(), ConnectFailure::InvalidURI);
    assert_ne!(ConnectFailure::HostNotFound, ConnectFailure::ConnectionRefused);
    assert_eq!(ShutdownMode::ShutdownSave.clone(), ShutdownMode::ShutdownSave);
    assert_ne!(ShutdownMode::ShutdownNormal, ShutdownMode::ShutdownNoSave);
    assert_eq!(KeyType::ZSetType.clone(), KeyType::ZSetType);
    assert_ne!(KeyType::NilType, KeyType::UnknownType);
}

#[test]
fn get_with_hands_the_text_to_the_parser() {
    let length = |text: String| Some(text.len());
    assert_eq!(Value::Data(b"hello".to_vec()).get_with(length), Some(5));
    assert_eq!(Value::Status("OK".to_string()).get_with(|text: String| Some(text)), Some("OK".to_string()));
    assert_eq!(Value::Data(b"42".to_vec()).get_with(|text: String| text.parse::<i64>().ok()), Some(42));
    assert_eq!(Value::Data(b"x".to_vec()).get_with(|_text: String| None::<u8>), None);
}

#[test]
fn get_with_does_not_call_the_parser_without_text() {
    let must_not_run = |_text: String| -> Option<u8> { panic!("there is no text to parse") };
    assert_eq!(Value::Nil.get_with(must_not_run), None);
    assert_eq!(Value::Int(1).get_with(must_not_run), None);
    assert_eq!(Value::Data(vec![0xff]).get_with(must_not_run), None);
}
