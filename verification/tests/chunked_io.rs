use maxtouch::chunk::{ReadTransaction, WriteTransaction};
use maxtouch::error::MtError;
use maxtouch::frame::REPORT_LENGTH;

/// An OK response frame whose data bytes (from offset 4) count up from
/// `start`.
fn ok_response(start: u8) -> Vec<u8> {
    let mut f = vec![0u8; REPORT_LENGTH];
    for i in 4..REPORT_LENGTH {
        f[i] = start.wrapping_add((i - 4) as u8);
    }
    f
}

/// Drive a read to completion against counting responses, returning the
/// request frames that went out and the accumulated data.
fn run_read(address: u16, length: u8) -> (Vec<Vec<u8>>, Vec<u8>) {
    let mut t = ReadTransaction::new(address, length);
    let mut requests = Vec::new();
    let mut chunk_no: u8 = 0;
    while !t.is_done() {
        requests.push(t.next_request());
        t.accept_response(&ok_response(chunk_no)).expect("status was OK");
        chunk_no = chunk_no.wrapping_add(100);
    }
    (requests, t.finish())
}

#[test]
fn read_single_chunk_is_one_frame() {
    let (requests, data) = run_read(0, 6);
    assert_eq!(requests.len(), 1);
    assert_eq!(requests[0][4], 6);
    assert_eq!(data.len(), 6);
    assert_eq!(data, vec![0, 1, 2, 3, 4, 5]);
}

#[test]
fn read_frame_count_is_ceil_of_length_over_capacity() {
    // 100 bytes over a 28-byte capacity: ceil(100 / 28) = 4 frames.
    let (requests, data) = run_read(0x200, 100);
    assert_eq!(requests.len(), 4);
    assert_eq!(data.len(), 100);
    // Chunk lengths: three full frames and the remainder.
    assert_eq!(requests[0][4], 28);
    assert_eq!(requests[1][4], 28);
    assert_eq!(requests[2][4], 28);
    assert_eq!(requests[3][4], 16);
}

#[test]
fn read_chunk_addresses_step_by_capacity() {
    // Chunk N is requested at address + N * 28.
    let (requests, _) = run_read(0x200, 100);
    let addrs: Vec<u16> = requests
        .iter()
        .map(|f| (f[2] as u16) | ((f[3] as u16) << 8))
        .collect();
    assert_eq!(addrs, vec![0x200, 0x200 + 28, 0x200 + 56, 0x200 + 84]);
}

#[test]
fn read_exact_multiple_of_capacity() {
    let (requests, data) = run_read(10, 56);
    assert_eq!(requests.len(), 2);
    assert_eq!(data.len(), 56);
}

#[test]
fn read_of_nothing_issues_no_frames() {
    let (requests, data) = run_read(40, 0);
    assert_eq!(requests.len(), 0);
    assert_eq!(data.len(), 0);
}

#[test]
fn read_concatenates_chunk_payloads_in_order() {
    let (_, data) = run_read(0, 60);
    // First chunk counts from 0, second from 100, third from 200.
    assert_eq!(&data[..28], (0u8..28).collect::<Vec<u8>>().as_slice());
    assert_eq!(&data[28..56], (100u8..128).collect::<Vec<u8>>().as_slice());
    assert_eq!(&data[56..], &[200, 201, 202, 203]);
}

#[test]
fn read_device_error_aborts_with_code() {
    let mut t = ReadTransaction::new(0, 60);
    let _first = t.next_request();
    t.accept_response(&ok_response(0)).expect("status was OK");
    let _second = t.next_request();
    let mut bad = vec![0u8; REPORT_LENGTH];
    bad[0] = 5;
    match t.accept_response(&bad) {
        Err(MtError::DeviceError(code)) => {
            assert_eq!(code, 5);
            let message = MtError::DeviceError(code).message();
            assert!(message.contains('5'));
        }
        _ => panic!("expected a device error"),
    }
    // The operation carries no partial success: the read never completed.
    assert!(!t.is_done());
}

#[test]
fn write_splits_payload_into_chunks() {
    let data: Vec<u8> = (0u8..60u8).collect();
    let mut t = WriteTransaction::new(0x80, data);
    let mut requests = Vec::new();
    while !t.is_done() {
        requests.push(t.next_request());
        t.accept_response(&vec![0u8; REPORT_LENGTH]).expect("status was OK");
    }
    assert_eq!(requests.len(), 3);
    let addrs: Vec<u16> = requests
        .iter()
        .map(|f| (f[2] as u16) | ((f[3] as u16) << 8))
        .collect();
    assert_eq!(addrs, vec![0x80, 0x80 + 28, 0x80 + 56]);
    assert_eq!(requests[0][4], 28);
    assert_eq!(requests[1][4], 28);
    assert_eq!(requests[2][4], 4);
    assert_eq!(&requests[0][5..33], (0u8..28).collect::<Vec<u8>>().as_slice());
    assert_eq!(&requests[1][5..33], (28u8..56).collect::<Vec<u8>>().as_slice());
    assert_eq!(&requests[2][5..9], &[56, 57, 58, 59]);
}

#[test]
fn write_device_error_aborts_with_code() {
    let data: Vec<u8> = (0u8..60u8).collect();
    let mut t = WriteTransaction::new(0x80, data);
    let _first = t.next_request();
    let mut bad = vec![0u8; REPORT_LENGTH];
    bad[0] = 9;
    match t.accept_response(&bad) {
        Err(MtError::DeviceError(code)) => assert_eq!(code, 9),
        _ => panic!("expected a device error"),
    }
    assert!(!t.is_done());
}
