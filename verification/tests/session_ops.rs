use maxtouch::error::MtError;
use maxtouch::objects::T100MultipleTouchTouchscreen;
use maxtouch::session::Session;
use maxtouch::table::{InformationBlock, ObjectTable, ObjectTableElement};

/// A session holding one object: type 10 at address 100, size 10.
fn session_with_one_object() -> Session {
    let info = InformationBlock::from_bytes(&vec![1, 2, 3, 4, 8, 6, 1]);
    let mut table = ObjectTable::new();
    // position 100 little-endian, size-minus-one 9, instances-minus-one 0.
    let e = ObjectTableElement::from_bytes(&vec![10, 100, 0, 9, 0, 1]);
    assert!(e.fits());
    table.insert_element(&e);
    Session::new(&info, table)
}

#[test]
fn write_register_accepts_span_below_declared_size() {
    let session = session_with_one_object();
    // offset + len == 9 < 10: accepted, at address + offset.
    let target = session.write_register_target(10, 3, 6).expect("span fits");
    assert_eq!(target, 103);
}

#[test]
fn write_register_rejects_span_reaching_declared_size() {
    let session = session_with_one_object();
    // offset + len == 10 >= 10: rejected.
    match session.write_register_target(10, 3, 7) {
        Err(MtError::OutOfBounds(id)) => {
            assert_eq!(id, 10);
            let message = MtError::OutOfBounds(id).message();
            assert_eq!(message, "Attempt to write off the end of object 10.");
        }
        _ => panic!("expected out-of-bounds"),
    }
}

#[test]
fn write_register_rejects_unknown_object() {
    let session = session_with_one_object();
    match session.write_register_target(11, 0, 1) {
        Err(MtError::ObjectNotFound(id)) => assert_eq!(id, 11),
        _ => panic!("expected object-not-found"),
    }
}

#[test]
fn object_span_returns_address_and_size() {
    let session = session_with_one_object();
    let (addr, size) = session.object_span(10).expect("object exists");
    assert_eq!(addr, 100);
    assert_eq!(size, 10);
}

fn t100_with_cfg1(cfg1: u8) -> T100MultipleTouchTouchscreen {
    let mut bytes = vec![0u8; 68];
    bytes[1] = cfg1;
    T100MultipleTouchTouchscreen::from_bytes(&bytes)
}

#[test]
fn orientation_projection_reads_cfg1_bits() {
    let mut session = session_with_one_object();
    // Bit 7 inverts x, bit 6 inverts y, bit 5 swaps the axes.
    session.apply_orientation(&t100_with_cfg1(0x80));
    assert!(session.invert_x && !session.invert_y && !session.swap_xy);
    session.apply_orientation(&t100_with_cfg1(0x40));
    assert!(!session.invert_x && session.invert_y && !session.swap_xy);
    session.apply_orientation(&t100_with_cfg1(0x20));
    assert!(!session.invert_x && !session.invert_y && session.swap_xy);
    session.apply_orientation(&t100_with_cfg1(0xE0));
    assert!(session.invert_x && session.invert_y && session.swap_xy);
    session.apply_orientation(&t100_with_cfg1(0x1F));
    assert!(!session.invert_x && !session.invert_y && !session.swap_xy);
}
