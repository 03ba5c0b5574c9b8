use yeelib_rs::fields::Rgb;
use yeelib_rs::YeeError;

#[test]
fn it_works() {}

#[test]
fn messages_give_kind_and_detail() {
    let e = YeeError::ParseFieldFailed { field_name: "rgb", source: None };
    assert_eq!(e.to_string(), "ParseFieldFailed: failed to parse required field: rgb");

    let e = YeeError::FieldNotFound { field_name: "id" };
    assert_eq!(e.to_string(), "FieldNotFound: did not find the required field: id");

    let e = YeeError::MethodNotSupported { method_name: "set_rgb" };
    assert_eq!(e.to_string(), "MethodNotSupported: cannot use method: set_rgb");

    let e = YeeError::InvalidValue { field_name: "ct", value: "2699".to_string() };
    assert_eq!(e.to_string(), "InvalidValue: invalid value for ct: 2699");

    let e = YeeError::ChangeFailed { message: "client quota exceeded".to_string() };
    assert_eq!(e.to_string(), "ChangeFailed: changing param failed: client quota exceeded");
}

#[test]
fn io_message_opens_with_kind_and_ends_with_the_cause() {
    let cause = std::io::Error::new(std::io::ErrorKind::Other, "pipe burst");
    let e = YeeError::from(cause);
    assert!(matches!(e, YeeError::IoError { .. }));
    assert_eq!(e.to_string(), "IoError: IO error: pipe burst");
}

#[test]
fn causes_are_handed_out() {
    let e = YeeError::from(std::io::Error::new(std::io::ErrorKind::Other, "x"));
    assert!(e.io_cause().is_some());
    assert!(e.parse_cause().is_none());

    let e = Rgb::parse("nope").unwrap_err();
    assert!(e.parse_cause().is_some());
    assert!(e.io_cause().is_none());
    assert_eq!(e.parse_cause().unwrap().to_string(), "invalid digit found in string");

    let e = Rgb::parse("16777216").unwrap_err();
    assert!(e.parse_cause().is_none());

    let e = YeeError::FieldNotFound { field_name: "id" };
    assert!(e.parse_cause().is_none());
    assert!(e.io_cause().is_none());
}
