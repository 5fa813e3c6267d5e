use onestore::compact_id::CompactId;
use onestore::compact_u64::parse_compact_u64;
use onestore::errors::ErrorKind;
use onestore::exguid::ExGuid;
use onestore::guid::Guid;
use onestore::reader::Reader;
use onestore::stream_object::{ObjectHeader, ParsedHeader};

fn le32(out: &mut Vec<u8>, v: u32) {
    out.extend_from_slice(&v.to_le_bytes());
}

fn le16(out: &mut Vec<u8>, v: u16) {
    out.extend_from_slice(&v.to_le_bytes());
}

fn guid_bytes(seed: u8) -> Vec<u8> {
    (0..16u8).map(|i| seed.wrapping_add(i)).collect()
}

fn guid_of(seed: u8) -> Guid {
    let b = guid_bytes(seed);
    Guid {
        data1: u32::from_le_bytes([b[0], b[1], b[2], b[3]]),
        data2: u16::from_le_bytes([b[4], b[5]]),
        data3: u16::from_le_bytes([b[6], b[7]]),
        data4: u64::from_le_bytes([b[8], b[9], b[10], b[11], b[12], b[13], b[14], b[15]]),
    }
}

#[test]
fn reader_reads_little_endian_words() {
    let data = [0x01u8, 0x02, 0x03, 0x04, 0x05, 0x06, 0x07, 0x08, 0x09, 0x0a, 0x0b];
    let mut r = Reader::new(&data);
    assert_eq!(r.get_u8().unwrap(), 0x01);
    assert_eq!(r.get_u16().unwrap(), 0x0302);
    assert_eq!(r.get_u32().unwrap(), 0x07060504);
    assert_eq!(r.remaining(), 4);
    assert_eq!(r.position(), 7);
    assert_eq!(r.get_u32().unwrap(), 0x0b0a0908);
    assert!(matches!(r.get_u8(), Err(ErrorKind::UnexpectedEof)));
    assert_eq!(r.position(), 11);
}

#[test]
fn reader_reads_u64_and_slices() {
    let data = [1u8, 0, 0, 0, 0, 0, 0, 0, 0xff, 0xee];
    let mut r = Reader::new(&data);
    assert_eq!(r.get_u64().unwrap(), 1);
    assert_eq!(r.read(2).unwrap(), vec![0xff, 0xee]);
    assert!(matches!(r.get_u8(), Err(ErrorKind::UnexpectedEof)));
}

#[test]
fn compact_u64_zero_byte_is_zero() {
    let data = [0u8];
    let mut r = Reader::new(&data);
    assert_eq!(parse_compact_u64(&mut r).unwrap(), 0);
    assert_eq!(r.remaining(), 0);
}

#[test]
fn compact_u64_seven_bit_form() {
    // 5 encoded as (5 << 1) | 1.
    let data = [0x0bu8];
    let mut r = Reader::new(&data);
    assert_eq!(parse_compact_u64(&mut r).unwrap(), 5);
}

#[test]
fn compact_u64_fourteen_bit_form() {
    // 300 encoded as (300 << 2) | 2 over two bytes.
    let w: u16 = (300 << 2) | 2;
    let data = w.to_le_bytes();
    let mut r = Reader::new(&data);
    assert_eq!(parse_compact_u64(&mut r).unwrap(), 300);
    assert_eq!(r.position(), 2);
}

#[test]
fn compact_u64_full_width_form() {
    let mut data = vec![0x80u8];
    data.extend_from_slice(&0xdead_beef_0102_0304u64.to_le_bytes());
    let mut r = Reader::new(&data);
    assert_eq!(parse_compact_u64(&mut r).unwrap(), 0xdead_beef_0102_0304);
    assert_eq!(r.position(), 9);
}

#[test]
fn guid_parses_canonical_layout() {
    let data = guid_bytes(0x40);
    let mut r = Reader::new(&data);
    assert_eq!(Guid::parse(&mut r).unwrap(), guid_of(0x40));
    assert_eq!(r.remaining(), 0);
}

#[test]
fn guid_too_short_is_eof() {
    let data = [0u8; 15];
    let mut r = Reader::new(&data);
    assert!(matches!(Guid::parse(&mut r), Err(ErrorKind::UnexpectedEof)));
}

#[test]
fn exguid_null_form() {
    let data = [0u8];
    let mut r = Reader::new(&data);
    let eg = ExGuid::parse(&mut r).unwrap();
    assert_eq!(eg, ExGuid { guid: Guid { data1: 0, data2: 0, data3: 0, data4: 0 }, value: 0 });
}

#[test]
fn exguid_five_bit_form() {
    let mut data = vec![(9u8 << 3) | 0x04];
    data.extend_from_slice(&guid_bytes(0x10));
    let mut r = Reader::new(&data);
    let eg = ExGuid::parse(&mut r).unwrap();
    assert_eq!(eg, ExGuid { guid: guid_of(0x10), value: 9 });
    assert_eq!(r.position(), 17);
}

#[test]
fn exguid_ten_bit_form() {
    let w: u16 = (700 << 6) | 0x20;
    let mut data = w.to_le_bytes().to_vec();
    data.extend_from_slice(&guid_bytes(0x21));
    let mut r = Reader::new(&data);
    let eg = ExGuid::parse(&mut r).unwrap();
    assert_eq!(eg, ExGuid { guid: guid_of(0x21), value: 700 });
}

#[test]
fn exguid_seventeen_bit_form() {
    let w: u32 = (100_000 << 7) | 0x40;
    let mut data = w.to_le_bytes()[0..3].to_vec();
    data.extend_from_slice(&guid_bytes(0x32));
    let mut r = Reader::new(&data);
    let eg = ExGuid::parse(&mut r).unwrap();
    assert_eq!(eg, ExGuid { guid: guid_of(0x32), value: 100_000 });
}

#[test]
fn exguid_full_form() {
    let mut data = vec![0x80u8];
    le32(&mut data, 0xcafe_f00d);
    data.extend_from_slice(&guid_bytes(0x43));
    let mut r = Reader::new(&data);
    let eg = ExGuid::parse(&mut r).unwrap();
    assert_eq!(eg, ExGuid { guid: guid_of(0x43), value: 0xcafe_f00d });
    assert_eq!(r.position(), 21);
}

#[test]
fn exguid_bad_tag_is_malformed() {
    let data = [0x02u8];
    let mut r = Reader::new(&data);
    assert!(matches!(
        ExGuid::parse(&mut r),
        Err(ErrorKind::MalformedFssHttpBData("unexpected extended guid tag"))
    ));
}

#[test]
fn compact_id_splits_value_and_index() {
    let mut data = Vec::new();
    le32(&mut data, 7);
    le32(&mut data, 3);
    let mut r = Reader::new(&data);
    assert_eq!(CompactId::parse(&mut r).unwrap(), CompactId { value: 7, guid_index: 3 });
}

#[test]
fn header16_start_fields() {
    // tag 1, type 0x15, length 4, compound.
    let w: u16 = 1 | (0x15 << 2) | (4 << 8) | (1 << 15);
    let data = w.to_le_bytes();
    let mut r = Reader::new(&data);
    match ObjectHeader::parse(&mut r).unwrap() {
        ParsedHeader::Start(h) => {
            assert!(h.compound);
            assert_eq!(h.object_type, 0x15);
            assert_eq!(h.length, 4);
        }
        other => panic!("expected a start header, got {:?}", other),
    }
}

#[test]
fn header16_end_marker() {
    let w: u16 = 3 | (0x7a << 2);
    let data = w.to_le_bytes();
    let mut r = Reader::new(&data);
    match ObjectHeader::parse(&mut r).unwrap() {
        ParsedHeader::End(t) => assert_eq!(t, 0x7a),
        other => panic!("expected an end marker, got {:?}", other),
    }
}

#[test]
fn header32_start_fields() {
    // tag 0, type 0x7a, length 600, compound.
    let w: u32 = (0x7a << 2) | (600 << 16) | (1 << 31);
    let data = w.to_le_bytes();
    let mut r = Reader::new(&data);
    match ObjectHeader::parse(&mut r).unwrap() {
        ParsedHeader::Start(h) => {
            assert!(h.compound);
            assert_eq!(h.object_type, 0x7a);
            assert_eq!(h.length, 600);
        }
        other => panic!("expected a start header, got {:?}", other),
    }
}

#[test]
fn header_bad_tag_is_malformed() {
    let data = [0x02u8, 0x00];
    let mut r = Reader::new(&data);
    assert!(matches!(
        ObjectHeader::parse(&mut r),
        Err(ErrorKind::MalformedFssHttpBData("unexpected stream object header tag"))
    ));
}

#[test]
fn try_parse_end_checks_type() {
    let w: u16 = 3 | (0x15 << 2);
    let data = w.to_le_bytes();
    let mut r = Reader::new(&data);
    assert!(matches!(
        ObjectHeader::try_parse_end_16(&mut r, 0x7a),
        Err(ErrorKind::MalformedFssHttpBData("mismatched end marker type"))
    ));
    let mut r2 = Reader::new(&data);
    assert!(ObjectHeader::try_parse_end_16(&mut r2, 0x15).is_ok());
}

#[test]
fn le16_helper_consistency() {
    let mut data = Vec::new();
    le16(&mut data, 0xbeef);
    let mut r = Reader::new(&data);
    assert_eq!(r.get_u16().unwrap(), 0xbeef);
}
