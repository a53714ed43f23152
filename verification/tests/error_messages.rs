use maxtouch::error::{u8_decimal, MtError};

#[test]
fn decimal_rendering_of_bytes() {
    assert_eq!(u8_decimal(0), "0");
    assert_eq!(u8_decimal(5), "5");
    assert_eq!(u8_decimal(9), "9");
    assert_eq!(u8_decimal(10), "10");
    assert_eq!(u8_decimal(42), "42");
    assert_eq!(u8_decimal(99), "99");
    assert_eq!(u8_decimal(100), "100");
    assert_eq!(u8_decimal(137), "137");
    assert_eq!(u8_decimal(255), "255");
}

#[test]
fn device_error_message_embeds_status_code() {
    let message = MtError::DeviceError(5).message();
    assert_eq!(message, "Device reported an error (5)");
    assert!(message.contains('5'));
}

#[test]
fn each_failure_has_its_own_message() {
    assert_eq!(MtError::NotConnected.message(), "Not connected.");
    assert_eq!(
        MtError::Timeout.message(),
        "Timed out waiting for a response."
    );
    assert_eq!(
        MtError::TransportFailure(String::from("read failed")).message(),
        "Transport failure: read failed"
    );
    assert_eq!(MtError::ObjectNotFound(6).message(), "Object 6 not found");
    assert_eq!(
        MtError::NotSerializable(200).message(),
        "Object type 200 is not serializable"
    );
    assert_eq!(
        MtError::OutOfBounds(100).message(),
        "Attempt to write off the end of object 100."
    );
}
