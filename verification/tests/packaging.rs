use onestore::data_element::{DataElementBody, DataElementPackage};
use onestore::errors::ErrorKind;
use onestore::exguid::ExGuid;
use onestore::guid::Guid;
use onestore::object_space::ObjectSpace;
use onestore::packaging::Packaging;
use onestore::page_node;
use onestore::property_ids;
use onestore::reader::Reader;

fn guid_bytes(seed: u8) -> Vec<u8> {
    (0..16u8).map(|i| seed.wrapping_add(i)).collect()
}

fn guid_of(seed: u8) -> Guid {
    let b = guid_bytes(seed);
    Guid {
        data1: u32::from_le_bytes([b[0], b[1], b[2], b[3]]),
        data2: u16::from_le_bytes([b[4], b[5]]),
        data3: u16::from_le_bytes([b[6], b[7]]),
        data4: u64::from_le_bytes([b[8], b[9], b[10], b[11], b[12], b[13], b[14], b[15]]),
    }
}

fn header16(out: &mut Vec<u8>, object_type: u16, length: u16, compound: bool) {
    let w: u16 = 1 | (object_type << 2) | (length << 8) | ((compound as u16) << 15);
    out.extend_from_slice(&w.to_le_bytes());
}

fn end16(out: &mut Vec<u8>, object_type: u16) {
    let w: u16 = 3 | (object_type << 2);
    out.extend_from_slice(&w.to_le_bytes());
}

fn header32(out: &mut Vec<u8>, object_type: u32, length: u32, compound: bool) {
    let w: u32 = (object_type << 2) | (length << 16) | ((compound as u32) << 31);
    out.extend_from_slice(&w.to_le_bytes());
}

/// The wire form of the OneNote document file-type GUID.
fn one_file_type_bytes() -> Vec<u8> {
    let mut out = Vec::new();
    out.extend_from_slice(&0x7b5c52e4u32.to_le_bytes());
    out.extend_from_slice(&0xd88cu16.to_le_bytes());
    out.extend_from_slice(&0x4da7u16.to_le_bytes());
    out.extend_from_slice(&[0xae, 0xb1, 0x53, 0x78, 0xd0, 0x29, 0x96, 0xd3]);
    out
}

/// The envelope of a minimal legacy file around the given package body.
fn envelope(padding: u32, legacy_matches: bool, package: &[u8]) -> Vec<u8> {
    let mut out = Vec::new();
    out.extend_from_slice(&one_file_type_bytes()); // file type
    out.extend_from_slice(&guid_bytes(0x20)); // file
    out.extend_from_slice(&guid_bytes(if legacy_matches { 0x20 } else { 0x21 }));
    out.extend_from_slice(&guid_bytes(0x30)); // file format
    out.extend_from_slice(&padding.to_le_bytes());
    header32(&mut out, 0x7a, 0, true); // packaging start
    out.push(0); // null storage index
    out.extend_from_slice(&guid_bytes(0x40)); // cell schema
    out.extend_from_slice(package);
    end16(&mut out, 0x7a);
    out
}

fn empty_package() -> Vec<u8> {
    let mut out = Vec::new();
    header16(&mut out, 0x15, 0, true);
    out.push(0); // reserved
    end16(&mut out, 0x15);
    out
}

#[test]
fn minimal_legacy_file_parses_to_zero_elements() {
    let data = envelope(0, true, &empty_package());
    let mut r = Reader::new(&data);
    let packaging = Packaging::parse(&mut r).unwrap();
    assert_eq!(packaging.file_type, Packaging::file_type_one());
    assert_eq!(packaging.file, guid_of(0x20));
    assert_eq!(packaging.legacy_file_version, guid_of(0x20));
    assert_eq!(packaging.file_format, guid_of(0x30));
    assert_eq!(packaging.storage_index, ExGuid {
        guid: Guid { data1: 0, data2: 0, data3: 0, data4: 0 },
        value: 0,
    });
    assert_eq!(packaging.cell_schema, guid_of(0x40));
    assert!(packaging.data_element_package.elements.is_empty());
    assert_eq!(r.remaining(), 0);
}

#[test]
fn nonzero_padding_is_rejected() {
    let data = envelope(0x0000_0001, true, &empty_package());
    let mut r = Reader::new(&data);
    assert!(matches!(
        Packaging::parse(&mut r),
        Err(ErrorKind::MalformedFssHttpBData("invalid padding data"))
    ));
}

#[test]
fn mismatched_legacy_version_is_rejected() {
    let data = envelope(0, false, &empty_package());
    let mut r = Reader::new(&data);
    assert!(matches!(
        Packaging::parse(&mut r),
        Err(ErrorKind::MalformedOneStoreData("not a legacy OneStore file"))
    ));
}

#[test]
fn nonzero_reserved_byte_is_rejected() {
    let mut package = Vec::new();
    header16(&mut package, 0x15, 0, true);
    package.push(1);
    end16(&mut package, 0x15);
    let data = envelope(0, true, &package);
    let mut r = Reader::new(&data);
    assert!(matches!(
        Packaging::parse(&mut r),
        Err(ErrorKind::MalformedFssHttpBData("invalid data element package reserved byte"))
    ));
}

/// One object group holding one page object with a title property.
fn page_group_package() -> Vec<u8> {
    let mut out = Vec::new();
    header16(&mut out, 0x15, 0, true); // package start
    out.push(0); // reserved

    header16(&mut out, 0x01, 0, true); // data element start
    out.push((1 << 3) | 0x04); // element id, five-bit form
    out.extend_from_slice(&guid_bytes(0x50));
    out.extend_from_slice(&guid_bytes(0x60)); // serial guid
    out.push((1 << 1) | 1); // serial 1, compact
    out.push((5 << 1) | 1); // element type: object group

    header16(&mut out, 0x1d, 0, true); // declarations start
    header16(&mut out, 0x18, 0, false); // one declaration
    out.push((2 << 3) | 0x04); // object id, five-bit form
    out.extend_from_slice(&guid_bytes(0x70));
    out.push((1 << 1) | 1); // partition
    out.push(0); // data size: zero
    end16(&mut out, 0x1d);

    header16(&mut out, 0x1e, 0, true); // data start
    header16(&mut out, 0x16, 0, false); // one data entry
    out.extend_from_slice(&0x0006000bu32.to_le_bytes()); // page schema
    out.push(0); // no object ids
    out.push(0); // no object space ids
    out.push(0); // no context ids
    // property set: a title and the two page dimensions
    out.extend_from_slice(&3u16.to_le_bytes());
    out.extend_from_slice(&property_ids::CACHED_TITLE_STRING.to_le_bytes());
    out.extend_from_slice(&property_ids::PAGE_WIDTH.to_le_bytes());
    out.extend_from_slice(&property_ids::PAGE_HEIGHT.to_le_bytes());
    let title: Vec<u8> = "Hello".encode_utf16().flat_map(|u| u.to_le_bytes()).collect();
    out.extend_from_slice(&(title.len() as u32).to_le_bytes());
    out.extend_from_slice(&title);
    out.extend_from_slice(&8.5f32.to_bits().to_le_bytes());
    out.extend_from_slice(&11.0f32.to_bits().to_le_bytes());
    end16(&mut out, 0x1e);

    end16(&mut out, 0x01); // data element end
    end16(&mut out, 0x15); // package end
    out
}

#[test]
fn object_group_round_trip_to_a_page() {
    let data = envelope(0, true, &page_group_package());
    let mut r = Reader::new(&data);
    let mut packaging = Packaging::parse(&mut r).unwrap();
    assert_eq!(r.remaining(), 0);
    assert_eq!(packaging.data_element_package.elements.len(), 1);
    let element = packaging.data_element_package.elements.remove(0);
    assert_eq!(element.id, ExGuid { guid: guid_of(0x50), value: 1 });
    assert_eq!(element.serial_guid, guid_of(0x60));
    assert_eq!(element.serial, 1);
    assert_eq!(element.element_type, 5);
    let group = match element.body {
        DataElementBody::ObjectGroup(g) => g,
        DataElementBody::Unsupported => panic!("expected an object group"),
    };
    assert_eq!(group.objects.len(), 1);
    assert_eq!(group.objects[0].id, ExGuid { guid: guid_of(0x70), value: 2 });
    assert_eq!(group.objects[0].partition_id, 1);
    assert_eq!(group.objects[0].jc_id.0, 0x0006000b);

    let context = ExGuid { guid: guid_of(0x50), value: 1 };
    let space = ObjectSpace::from_object_group(group, Vec::new(), context);
    let object = space.get_object(ExGuid { guid: guid_of(0x70), value: 2 }).unwrap();
    let page = page_node::parse(object).unwrap();
    assert_eq!(String::from_utf16(&page.title.unwrap()).unwrap(), "Hello");
    assert_eq!(f32::from_bits(page.page_width.unwrap()), 8.5);
    assert_eq!(f32::from_bits(page.page_height.unwrap()), 11.0);
}

#[test]
fn unsupported_elements_are_walked_over() {
    let mut package = Vec::new();
    header16(&mut package, 0x15, 0, true);
    package.push(0);
    header16(&mut package, 0x01, 0, true); // data element start
    package.push(0); // null element id
    package.extend_from_slice(&guid_bytes(0x60));
    package.push((1 << 1) | 1); // serial
    package.push((2 << 1) | 1); // element type: storage manifest
    header16(&mut package, 0x07, 2, false); // an opaque frame of two bytes
    package.extend_from_slice(&[0xaa, 0xbb]);
    end16(&mut package, 0x01);
    end16(&mut package, 0x15);
    let data = envelope(0, true, &package);
    let mut r = Reader::new(&data);
    let packaging = Packaging::parse(&mut r).unwrap();
    assert_eq!(packaging.data_element_package.elements.len(), 1);
    assert_eq!(packaging.data_element_package.elements[0].element_type, 2);
    assert!(matches!(
        packaging.data_element_package.elements[0].body,
        DataElementBody::Unsupported
    ));
    assert_eq!(r.remaining(), 0);
}

#[test]
fn empty_package_parse_is_reusable() {
    let package = empty_package();
    let mut r = Reader::new(&package);
    let parsed = DataElementPackage::parse(&mut r).unwrap();
    assert!(parsed.elements.is_empty());
    assert_eq!(r.remaining(), 0);
}

#[test]
fn truncated_envelope_is_eof() {
    let data = guid_bytes(0x10);
    let mut r = Reader::new(&data);
    assert!(matches!(Packaging::parse(&mut r), Err(ErrorKind::UnexpectedEof)));
}
