use wire_codec::codec::{
    decode_i16, decode_i8, decode_u8, encode_i16, encode_i8, encode_u8, DecodeError,
};

#[test]
fn u8_round_trip() {
    for v in [0u8, 1, 0x7f, 0x80, 0xff] {
        let mut buf: Vec<u8> = Vec::new();
        encode_u8(v, &mut buf);
        assert_eq!(buf, vec![v]);
        let mut pos: usize = 0;
        assert_eq!(decode_u8(&buf, &mut pos), Ok(v));
        assert_eq!(pos, 1);
    }
}

#[test]
fn u8_decode_exhausted_source() {
    let buf: Vec<u8> = Vec::new();
    let mut pos: usize = 0;
    assert_eq!(decode_u8(&buf, &mut pos), Err(DecodeError::StreamFailure));
    assert_eq!(pos, 0);
}

#[test]
fn i8_round_trip() {
    for v in [-128i8, -1, 0, 1, 127] {
        let mut buf: Vec<u8> = Vec::new();
        encode_i8(v, &mut buf);
        assert_eq!(buf, vec![v as u8]);
        let mut pos: usize = 0;
        assert_eq!(decode_i8(&buf, &mut pos), Ok(v));
        assert_eq!(pos, 1);
    }
}

#[test]
fn i16_big_endian_layout() {
    let mut buf: Vec<u8> = Vec::new();
    encode_i16(0x0102, &mut buf);
    encode_i16(-1, &mut buf);
    encode_i16(-2, &mut buf);
    assert_eq!(buf, vec![0x01, 0x02, 0xff, 0xff, 0xff, 0xfe]);
}

#[test]
fn i16_round_trip() {
    for v in [i16::MIN, -257, -1, 0, 1, 256, i16::MAX] {
        let mut buf: Vec<u8> = Vec::new();
        encode_i16(v, &mut buf);
        assert_eq!(buf.len(), 2);
        let mut pos: usize = 0;
        assert_eq!(decode_i16(&buf, &mut pos), Ok(v));
        assert_eq!(pos, 2);
    }
}

#[test]
fn i16_decode_short_source() {
    let buf = vec![0x01];
    let mut pos: usize = 0;
    assert_eq!(decode_i16(&buf, &mut pos), Err(DecodeError::StreamFailure));
    assert_eq!(pos, 0);
}

#[test]
fn decode_reads_at_cursor() {
    let buf = vec![0xaa, 0x01, 0x02, 0xbb];
    let mut pos: usize = 1;
    assert_eq!(decode_i16(&buf, &mut pos), Ok(0x0102));
    assert_eq!(pos, 3);
    assert_eq!(decode_u8(&buf, &mut pos), Ok(0xbb));
    assert_eq!(pos, 4);
}
