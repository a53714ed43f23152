use maxtouch::error::MtError;
use maxtouch::session::Session;
use maxtouch::table::{Bootstrap, InformationBlock, ObjectTable, ObjectTableElement};

fn element(bytes: [u8; 6]) -> ObjectTableElement {
    ObjectTableElement::from_bytes(&bytes.to_vec())
}

#[test]
fn info_block_decodes_matrix_and_count() {
    // Family 1, variant 2, version 3, build 4, matrix 8 x 6, 3 objects.
    let info = InformationBlock::from_bytes(&vec![1, 2, 3, 4, 8, 6, 3]);
    assert_eq!(info.family_id, 1);
    assert_eq!(info.variant_id, 2);
    assert_eq!(info.version, 3);
    assert_eq!(info.build, 4);
    assert_eq!(info.matrix_x_size, 8);
    assert_eq!(info.matrix_y_size, 6);
    assert_eq!(info.num_objects, 3);
}

#[test]
fn bootstrap_reads_elements_at_offsets_after_info_block() {
    // Three objects announced: elements are read at 7, 13 and 19.
    let mut b = Bootstrap::new(&vec![1, 2, 3, 4, 8, 6, 3]);
    let expected_addrs = [7u16, 13, 19];
    for (i, addr) in expected_addrs.iter().enumerate() {
        let (a, len) = b.next_read().expect("an element should be pending");
        assert_eq!(a, *addr);
        assert_eq!(len, 6);
        let e = element([10 + i as u8, 0, 1, 5, 0, 1]);
        assert!(e.fits());
        b.accept_element(&e);
    }
    assert!(b.next_read().is_none());
    assert!(b.is_done());
}

#[test]
fn bootstrap_lookup_returns_decoded_metadata() {
    let mut b = Bootstrap::new(&vec![1, 2, 3, 4, 8, 6, 1]);
    // Object type 7 at position 0x1234, size-minus-one 9, instances-minus-one 0.
    let e = element([7, 0x34, 0x12, 9, 0, 1]);
    assert!(e.fits());
    b.accept_element(&e);
    let (info, table) = b.finish();
    assert_eq!(info.matrix_x_size, 8);
    let details = table.get(7).expect("id 7 was inserted");
    assert_eq!(details.address, 0x1234);
    assert_eq!(details.size, 10);
    assert_eq!(details.instances, 1);
}

#[test]
fn lookup_of_missing_id_is_none() {
    let table = ObjectTable::new();
    assert!(table.get(99).is_none());
}

#[test]
fn session_reports_missing_object_distinctly() {
    let info = InformationBlock::from_bytes(&vec![1, 2, 3, 4, 8, 6, 0]);
    let session = Session::new(&info, ObjectTable::new());
    match session.object_span(42) {
        Err(MtError::ObjectNotFound(id)) => {
            assert_eq!(id, 42);
            let message = MtError::ObjectNotFound(id).message();
            assert_eq!(message, "Object 42 not found");
        }
        _ => panic!("expected object-not-found"),
    }
}

#[test]
fn element_with_wrapping_size_does_not_fit() {
    let e = element([7, 0, 0, 255, 0, 1]);
    assert!(!e.fits());
    let e2 = element([7, 0, 0, 9, 255, 1]);
    assert!(!e2.fits());
    // An object whose span would run past the register space does not fit.
    let e3 = element([7, 0xFF, 0xFF, 9, 0, 1]);
    assert!(!e3.fits());
}

#[test]
fn session_takes_extents_from_info_block() {
    let info = InformationBlock::from_bytes(&vec![1, 2, 3, 4, 8, 6, 0]);
    let session = Session::new(&info, ObjectTable::new());
    assert_eq!(session.sensor_x, 8);
    assert_eq!(session.sensor_y, 6);
    assert!(!session.invert_x && !session.invert_y && !session.swap_xy);
}
