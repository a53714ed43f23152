use maxtouch::error::MtError;
use maxtouch::frame::{
    command_request, read_request, response_flag, response_status, version_request,
    write_request, SubCommand, REPORT_LENGTH,
};

#[test]
fn version_request_bytes() {
    let f = version_request();
    assert_eq!(f.len(), REPORT_LENGTH);
    assert_eq!(f[0], 0);
    assert_eq!(f[1], 0);
    assert_eq!(f[2], 0x9A);
    assert_eq!(f[3], 0x4D);
    assert_eq!(f[4], 0x00);
    assert_eq!(f[5], 0x01);
    for i in 6..REPORT_LENGTH {
        assert_eq!(f[i], 0);
    }
}

#[test]
fn read_request_layout() {
    let f = read_request(0x1234, 6);
    assert_eq!(f.len(), REPORT_LENGTH);
    assert_eq!(f[0], 0);
    assert_eq!(f[1], 2);
    assert_eq!(f[2], 0x34);
    assert_eq!(f[3], 0x12);
    assert_eq!(f[4], 6);
    for i in 5..REPORT_LENGTH {
        assert_eq!(f[i], 0);
    }
}

#[test]
fn write_request_copies_payload_slice() {
    let data: Vec<u8> = (0u8..40u8).collect();
    let f = write_request(0x0102, &data, 10, 5);
    assert_eq!(f.len(), REPORT_LENGTH);
    assert_eq!(f[0], 0);
    assert_eq!(f[1], 3);
    assert_eq!(f[2], 0x02);
    assert_eq!(f[3], 0x01);
    assert_eq!(f[4], 5);
    assert_eq!(&f[5..10], &[10, 11, 12, 13, 14]);
    for i in 10..REPORT_LENGTH {
        assert_eq!(f[i], 0);
    }
}

#[test]
fn command_request_layouts() {
    let reboot = command_request(SubCommand::RebootBootloader, 0);
    assert_eq!(reboot[1], 1);
    assert_eq!(reboot[2], 0);
    assert_eq!(reboot[3], 0);

    let set_on = command_request(SubCommand::SetMouseMode, 1);
    assert_eq!(set_on[1], 1);
    assert_eq!(set_on[2], 1);
    assert_eq!(set_on[3], 1);

    let get = command_request(SubCommand::GetMouseMode, 0);
    assert_eq!(get[1], 1);
    assert_eq!(get[2], 2);
    assert_eq!(get[3], 0);
}

#[test]
fn response_status_ok_and_error() {
    let ok = vec![0u8; REPORT_LENGTH];
    assert!(response_status(&ok).is_ok());

    let mut bad = vec![0u8; REPORT_LENGTH];
    bad[0] = 5;
    match response_status(&bad) {
        Err(MtError::DeviceError(code)) => assert_eq!(code, 5),
        _ => panic!("expected a device error"),
    }
}

#[test]
fn response_flag_reads_byte_one() {
    let mut f = vec![0u8; REPORT_LENGTH];
    assert!(!response_flag(&f));
    f[1] = 1;
    assert!(response_flag(&f));
    f[1] = 0x80;
    assert!(response_flag(&f));
}
