use maxtouch::error::MtError;
use maxtouch::objects::{decode_data_ready, decode_object, DecodedObject, T6CommandProcessor};

#[test]
fn t6_diagnostic_command_encodes_seven_bytes() {
    let t6 = T6CommandProcessor::diagnostic_command(0x10);
    assert_eq!(t6.to_bytes(), vec![0, 0, 0, 0, 0, 0x10, 0]);
}

#[test]
fn t7_decode_reads_each_byte() {
    let data = vec![32, 255, 10, 3, 1, 0, 7];
    match decode_object(7, &data).expect("id 7 decodes") {
        DecodedObject::T7(t7) => {
            assert_eq!(t7.idleacqint, 32);
            assert_eq!(t7.actacqint, 255);
            assert_eq!(t7.actv2idelto, 10);
            assert_eq!(t7.cfg, 3);
            assert_eq!(t7.cfg2, 1);
            assert_eq!(t7.idleacqintfine, 0);
            assert_eq!(t7.actvaqintfine, 7);
        }
        _ => panic!("expected a T7 value"),
    }
}

#[test]
fn t8_decode_reads_reserved_run_and_cfg() {
    let data: Vec<u8> = (1u8..=15u8).collect();
    match decode_object(8, &data).expect("id 8 decodes") {
        DecodedObject::T8(t8) => {
            assert_eq!(t8.chrgtime, 1);
            assert_eq!(t8.measallow, 11);
            assert_eq!(t8.reserved2, [12, 13, 14]);
            assert_eq!(t8.cfg, 15);
        }
        _ => panic!("expected a T8 value"),
    }
}

#[test]
fn t42_decode_reads_each_byte() {
    let data: Vec<u8> = (1u8..=14u8).collect();
    match decode_object(42, &data).expect("id 42 decodes") {
        DecodedObject::T42(t42) => {
            assert_eq!(t42.ctrl, 1);
            assert_eq!(t42.maxapprarea, 3);
            assert_eq!(t42.edgesupstrength, 14);
        }
        _ => panic!("expected a T42 value"),
    }
}

#[test]
fn t46_decode_reads_signed_sync_delay() {
    let mut data = vec![0u8; 19];
    data[2] = 4;
    // syncdelay = -2 little-endian at bytes 7..9.
    data[7] = 0xFE;
    data[8] = 0xFF;
    data[18] = 9;
    match decode_object(46, &data).expect("id 46 decodes") {
        DecodedObject::T46(t46) => {
            assert_eq!(t46.idlesyncsperx, 4);
            assert_eq!(t46.syncdelay, -2);
            assert_eq!(t46.cfg, 9);
        }
        _ => panic!("expected a T46 value"),
    }
}

#[test]
fn t47_decode_reads_first_and_last_bytes() {
    let mut data = vec![0u8; 45];
    data[0] = 3;
    data[13] = 77;
    data[44] = 21;
    match decode_object(47, &data).expect("id 47 decodes") {
        DecodedObject::T47(t47) => {
            assert_eq!(t47.ctrl, 3);
            assert_eq!(t47.reserved2[0], 77);
            assert_eq!(t47.movhistcfg, 21);
        }
        _ => panic!("expected a T47 value"),
    }
}

#[test]
fn t56_short_payload_is_zero_padded() {
    // The variable-length object arrives shorter than its fixed maximum;
    // the tail of the delay table decodes as zeros.
    let data = vec![1, 2, 3, 4, 9, 8, 7];
    match decode_object(56, &data).expect("id 56 decodes") {
        DecodedObject::T56(t56) => {
            assert_eq!(t56.ctrl, 1);
            assert_eq!(t56.reserved, 2);
            assert_eq!(t56.optint, 3);
            assert_eq!(t56.inttime, 4);
            assert_eq!(t56.intdelay[0], 9);
            assert_eq!(t56.intdelay[1], 8);
            assert_eq!(t56.intdelay[2], 7);
            for i in 3..41 {
                assert_eq!(t56.intdelay[i], 0);
            }
        }
        _ => panic!("expected a T56 value"),
    }
}

#[test]
fn t65_decode_reads_le16_fields() {
    let mut data = vec![0u8; 23];
    // ylonoisemul = 0x0201 at bytes 2..4; forcescale = 0x0403 at 11..13.
    data[2] = 0x01;
    data[3] = 0x02;
    data[11] = 0x03;
    data[12] = 0x04;
    data[22] = 5;
    match decode_object(65, &data).expect("id 65 decodes") {
        DecodedObject::T65(t65) => {
            assert_eq!(t65.ylonoisemul, 0x0201);
            assert_eq!(t65.forcescale, 0x0403);
            assert_eq!(t65.exfrcto, 5);
        }
        _ => panic!("expected a T65 value"),
    }
}

#[test]
fn t80_decode_reads_each_byte() {
    let data: Vec<u8> = (1u8..=15u8).collect();
    match decode_object(80, &data).expect("id 80 decodes") {
        DecodedObject::T80(t80) => {
            assert_eq!(t80.ctrl, 1);
            assert_eq!(t80.compgain, 2);
            assert_eq!(t80.moistdegthr, 15);
        }
        _ => panic!("expected a T80 value"),
    }
}

#[test]
fn t100_decode_reads_cfg1_and_le16_fields() {
    let mut data = vec![0u8; 68];
    data[1] = 0xE0;
    // xrange = 0x0504 at bytes 13..15; jlmmovthr = 0x0706 at 65..67.
    data[13] = 0x04;
    data[14] = 0x05;
    data[65] = 0x06;
    data[66] = 0x07;
    data[67] = 42;
    match decode_object(100, &data).expect("id 100 decodes") {
        DecodedObject::T100(t100) => {
            assert_eq!(t100.cfg1, 0xE0);
            assert_eq!(t100.xrange, 0x0504);
            assert_eq!(t100.jlmmovthr, 0x0706);
            assert_eq!(t100.jlmmovintthr, 42);
        }
        _ => panic!("expected a T100 value"),
    }
}

#[test]
fn decode_readiness_mirrors_layout_sizes() {
    assert!(decode_data_ready(7, 7));
    assert!(!decode_data_ready(7, 6));
    assert!(decode_data_ready(100, 68));
    assert!(!decode_data_ready(100, 67));
    // The variable-length layout pads, so any length decodes.
    assert!(decode_data_ready(56, 0));
    // An id with no layout needs nothing; it fails later as not
    // serializable.
    assert!(decode_data_ready(25, 0));
}

#[test]
fn unknown_id_is_not_serializable() {
    let data = vec![0u8; 64];
    match decode_object(25, &data) {
        Err(MtError::NotSerializable(id)) => {
            assert_eq!(id, 25);
            let message = MtError::NotSerializable(id).message();
            assert_eq!(message, "Object type 25 is not serializable");
        }
        _ => panic!("expected not-serializable"),
    }
}
