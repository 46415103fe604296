use wire_codec::codec::DecodeError;
use wire_codec::slot::{proto_decode, proto_encode, proto_len, try_proto_len, Slot};

#[test]
fn absent_slot_round_trip() {
    let mut buf: Vec<u8> = Vec::new();
    proto_encode(&None, &mut buf);
    assert_eq!(buf, vec![0xff, 0xff]);
    assert_eq!(proto_len(&None), 2);

    let mut pos: usize = 0;
    let got = proto_decode(&buf, &mut pos).unwrap();
    assert!(got.is_none());
    assert_eq!(pos, 2);
}

#[test]
fn absent_slot_stops_after_sentinel() {
    let buf = vec![0xff, 0xff, 0x12, 0x34];
    let mut pos: usize = 0;
    let got = proto_decode(&buf, &mut pos).unwrap();
    assert!(got.is_none());
    assert_eq!(pos, 2);
}

#[test]
fn present_slot_round_trip_without_tag() {
    let slot = Slot { id: 1, count: 1, damage: 0, tag: None };
    let mut buf: Vec<u8> = Vec::new();
    proto_encode(&Some(slot), &mut buf);
    assert_eq!(buf, vec![0x00, 0x01, 0x01, 0x00, 0x00, 0x00]);
    assert_eq!(proto_len(&Some(Slot { id: 1, count: 1, damage: 0, tag: None })), 6);

    let mut pos: usize = 0;
    let got = proto_decode(&buf, &mut pos).unwrap().unwrap();
    assert_eq!(got.id, 1);
    assert_eq!(got.count, 1);
    assert_eq!(got.damage, 0);
    assert!(got.tag.is_none());
    assert_eq!(pos, 6);
}

#[test]
fn present_slot_round_trip_with_tag() {
    let mut blob = nbt::Blob::new();
    blob.insert("display", "A named sword").unwrap();
    blob.insert("uses", 42i32).unwrap();

    let slot = Slot { id: 0x0102, count: 3, damage: -5, tag: Some(blob.clone()) };
    let mut buf: Vec<u8> = Vec::new();
    proto_encode(&Some(slot), &mut buf);
    assert_eq!(&buf[0..5], &[0x01, 0x02, 0x03, 0xff, 0xfb]);

    let mut pos: usize = 0;
    let got = proto_decode(&buf, &mut pos).unwrap().unwrap();
    assert_eq!(got.id, 0x0102);
    assert_eq!(got.count, 3);
    assert_eq!(got.damage, -5);
    assert_eq!(got.tag, Some(blob));
    assert_eq!(pos, buf.len());
}

#[test]
fn length_matches_encoded_bytes() {
    let mut blob = nbt::Blob::new();
    blob.insert("level", 7i16).unwrap();
    blob.insert("name", "pick").unwrap();

    let values = [
        None,
        Some(Slot { id: 9, count: 64, damage: 1, tag: None }),
        Some(Slot { id: 276, count: 1, damage: -1, tag: Some(blob) }),
    ];
    for v in values {
        let expected = proto_len(&v);
        assert_eq!(try_proto_len(&v), Some(expected));
        let mut buf: Vec<u8> = Vec::new();
        proto_encode(&v, &mut buf);
        assert_eq!(buf.len(), expected);
    }
}

#[test]
fn garbage_tag_is_recovered_as_absent() {
    // A present slot head followed by bytes that are no valid blob.
    let buf = vec![0x00, 0x01, 0x01, 0x00, 0x00, 0xfe, 0xca, 0xfe];
    let mut pos: usize = 0;
    let got = proto_decode(&buf, &mut pos).unwrap().unwrap();
    assert_eq!(got.id, 1);
    assert_eq!(got.count, 1);
    assert_eq!(got.damage, 0);
    assert!(got.tag.is_none());
}

#[test]
fn missing_tag_region_is_recovered_as_absent() {
    // The source ends right after the damage field: the tag parse fails on
    // the empty remainder and the slot still comes back whole.
    let buf = vec![0x00, 0x07, 0x02, 0x00, 0x03];
    let mut pos: usize = 0;
    let got = proto_decode(&buf, &mut pos).unwrap().unwrap();
    assert_eq!(got.id, 7);
    assert_eq!(got.count, 2);
    assert_eq!(got.damage, 3);
    assert!(got.tag.is_none());
    assert_eq!(pos, 5);
}

#[test]
fn truncated_head_fails_with_stream_error() {
    for bytes in [vec![], vec![0x00], vec![0x00, 0x01], vec![0x00, 0x01, 0x01], vec![
        0x00, 0x01, 0x01, 0x00,
    ]] {
        let mut pos: usize = 0;
        let got = proto_decode(&bytes, &mut pos);
        assert_eq!(got, Err(DecodeError::StreamFailure));
    }
}

#[test]
fn high_id_wire_form() {
    // An id above 0x7FFF travels as a negative signed value and comes back
    // unchanged.
    let slot = Slot { id: 0xfffe, count: 1, damage: 0, tag: None };
    let mut buf: Vec<u8> = Vec::new();
    proto_encode(&Some(slot), &mut buf);
    assert_eq!(&buf[0..2], &[0xff, 0xfe]);
    let mut pos: usize = 0;
    let got = proto_decode(&buf, &mut pos).unwrap().unwrap();
    assert_eq!(got.id, 0xfffe);
}

#[test]
fn tag_survives_only_when_valid() {
    // The same slot encoded twice, once with a tag and once without: the
    // decoded tag field tells them apart, so the tag bytes really travel.
    let mut blob = nbt::Blob::new();
    blob.insert("x", 1i8).unwrap();

    let mut with_tag: Vec<u8> = Vec::new();
    proto_encode(&Some(Slot { id: 5, count: 1, damage: 0, tag: Some(blob.clone()) }), &mut with_tag);
    let mut without_tag: Vec<u8> = Vec::new();
    proto_encode(&Some(Slot { id: 5, count: 1, damage: 0, tag: None }), &mut without_tag);
    assert!(with_tag.len() > without_tag.len());

    let mut pos: usize = 0;
    let got = proto_decode(&with_tag, &mut pos).unwrap().unwrap();
    assert_eq!(got.tag, Some(blob));
}
