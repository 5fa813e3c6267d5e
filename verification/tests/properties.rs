use onestore::errors::ErrorKind;
use onestore::object::{JcId, MappingTable, Object, ObjectPropSet};
use onestore::object_reference::ObjectReference;
use onestore::object_space_reference::ObjectSpaceReference;
use onestore::prop_set::{PropertySet, PropertyValue};
use onestore::property_ids;
use onestore::reader::Reader;
use onestore::simple;

fn empty_object(jc: u32, values: Vec<(u32, PropertyValue)>) -> Object {
    Object {
        jc_id: JcId(jc),
        context_id: onestore::exguid::ExGuid {
            guid: onestore::guid::Guid { data1: 0, data2: 0, data3: 0, data4: 0 },
            value: 0,
        },
        props: ObjectPropSet {
            object_ids: Vec::new(),
            object_space_ids: Vec::new(),
            context_ids: Vec::new(),
            properties: PropertySet { values },
        },
        file_data: None,
        mapping: MappingTable { guids: Vec::new() },
    }
}

#[test]
fn empty_property_set_consumes_only_the_count() {
    // Count zero, followed by a byte that must stay unread.
    let data = [0u8, 0, 0xaa];
    let mut r = Reader::new(&data);
    let ps = PropertySet::parse(&mut r).unwrap();
    assert!(ps.values.is_empty());
    assert_eq!(r.position(), 2);
    assert_eq!(r.remaining(), 1);
}

#[test]
fn bool_property_reads_no_body_bytes() {
    // One property: a true boolean; the byte after the ID list must
    // stay unread.
    let mut data = Vec::new();
    data.extend_from_slice(&1u16.to_le_bytes());
    data.extend_from_slice(&(property_ids::BOLD | 0x8000_0000).to_le_bytes());
    data.push(0xcc);
    let mut r = Reader::new(&data);
    let ps = PropertySet::parse(&mut r).unwrap();
    assert_eq!(r.position(), 6);
    assert_eq!(r.remaining(), 1);
    assert_eq!(ps.values.len(), 1);
    assert_eq!(ps.values[0].0, property_ids::BOLD);
    assert_eq!(ps.values[0].1, PropertyValue::Bool(true));
}

#[test]
fn bool_property_value_is_the_top_bit_of_the_id() {
    let mut data = Vec::new();
    data.extend_from_slice(&1u16.to_le_bytes());
    data.extend_from_slice(&property_ids::BOLD.to_le_bytes());
    let mut r = Reader::new(&data);
    let ps = PropertySet::parse(&mut r).unwrap();
    assert_eq!(ps.values[0].1, PropertyValue::Bool(false));
}

#[test]
fn u32_property_reads_four_body_bytes() {
    let mut data = Vec::new();
    data.extend_from_slice(&1u16.to_le_bytes());
    data.extend_from_slice(&property_ids::PAGE_WIDTH.to_le_bytes());
    data.extend_from_slice(&0x01020304u32.to_le_bytes());
    let mut r = Reader::new(&data);
    let ps = PropertySet::parse(&mut r).unwrap();
    assert_eq!(ps.values[0].1, PropertyValue::U32(0x01020304));
    assert_eq!(r.remaining(), 0);
}

#[test]
fn length_prefixed_property_carries_its_data() {
    let mut data = Vec::new();
    data.extend_from_slice(&1u16.to_le_bytes());
    data.extend_from_slice(&property_ids::CACHED_TITLE_STRING.to_le_bytes());
    data.extend_from_slice(&2u32.to_le_bytes());
    data.extend_from_slice(&[0x41, 0x00]);
    let mut r = Reader::new(&data);
    let ps = PropertySet::parse(&mut r).unwrap();
    assert_eq!(ps.values[0].1, PropertyValue::Vec(vec![0x41, 0x00]));
}

#[test]
fn nested_property_sets_with_zero_count_are_empty() {
    let mut data = Vec::new();
    data.extend_from_slice(&1u16.to_le_bytes());
    data.extend_from_slice(&property_ids::NOTE_TAGS.to_le_bytes());
    data.extend_from_slice(&property_ids::NOTE_TAG.to_le_bytes());
    data.extend_from_slice(&0u32.to_le_bytes());
    let mut r = Reader::new(&data);
    let ps = PropertySet::parse(&mut r).unwrap();
    match &ps.values[0].1 {
        PropertyValue::PropertyValues(id, sets) => {
            assert_eq!(*id, property_ids::NOTE_TAG);
            assert!(sets.is_empty());
        }
        other => panic!("expected nested property sets, got {:?}", other),
    }
    assert_eq!(r.remaining(), 0);
}

#[test]
fn nested_property_sets_parse_recursively() {
    let mut data = Vec::new();
    data.extend_from_slice(&1u16.to_le_bytes());
    data.extend_from_slice(&property_ids::NOTE_TAGS.to_le_bytes());
    data.extend_from_slice(&property_ids::NOTE_TAG.to_le_bytes());
    data.extend_from_slice(&1u32.to_le_bytes());
    // one inner set holding a single u8 property
    data.extend_from_slice(&1u16.to_le_bytes());
    data.extend_from_slice(&property_ids::CHARSET.to_le_bytes());
    data.push(77);
    let mut r = Reader::new(&data);
    let ps = PropertySet::parse(&mut r).unwrap();
    match &ps.values[0].1 {
        PropertyValue::PropertyValues(_, sets) => {
            assert_eq!(sets.len(), 1);
            assert_eq!(sets[0].values[0].1, PropertyValue::U8(77));
        }
        other => panic!("expected nested property sets, got {:?}", other),
    }
}

#[test]
fn unknown_property_shape_is_rejected() {
    let mut data = Vec::new();
    data.extend_from_slice(&1u16.to_le_bytes());
    // shape bits 0x0e name no property kind
    data.extend_from_slice(&(0x0eu32 << 26).to_le_bytes());
    let mut r = Reader::new(&data);
    assert!(matches!(
        PropertySet::parse(&mut r),
        Err(ErrorKind::MalformedOneStoreData("unexpected property type"))
    ));
}

#[test]
fn truncated_property_body_is_eof() {
    let mut data = Vec::new();
    data.extend_from_slice(&1u16.to_le_bytes());
    data.extend_from_slice(&property_ids::PAGE_WIDTH.to_le_bytes());
    data.extend_from_slice(&[1, 2]);
    let mut r = Reader::new(&data);
    assert!(matches!(PropertySet::parse(&mut r), Err(ErrorKind::UnexpectedEof)));
}

#[test]
fn get_ignores_the_bool_value_bit() {
    let ps = PropertySet {
        values: vec![(property_ids::BOLD, PropertyValue::Bool(true))],
    };
    assert_eq!(ps.get(property_ids::BOLD), Some(&PropertyValue::Bool(true)));
    assert_eq!(ps.get(property_ids::BOLD | 0x8000_0000), Some(&PropertyValue::Bool(true)));
    assert_eq!(ps.get(property_ids::ITALIC), None);
}

#[test]
fn get_prefers_the_last_write() {
    let ps = PropertySet {
        values: vec![
            (property_ids::PAGE_WIDTH, PropertyValue::U32(1)),
            (property_ids::PAGE_WIDTH, PropertyValue::U32(2)),
        ],
    };
    assert_eq!(ps.get(property_ids::PAGE_WIDTH), Some(&PropertyValue::U32(2)));
}

#[test]
fn count_references_follows_nesting() {
    let inner = PropertySet {
        values: vec![
            (property_ids::NOTE_TAG_DEFINITION_OID, PropertyValue::ObjectId),
            (property_ids::CONTENT_CHILD_NODES, PropertyValue::ObjectIds(3)),
        ],
    };
    let values = vec![
        (property_ids::PICTURE_CONTAINER, PropertyValue::ObjectId),
        (property_ids::PAGE_WIDTH, PropertyValue::U32(9)),
        (property_ids::CONTENT_CHILD_NODES, PropertyValue::ObjectIds(2)),
        (
            property_ids::NOTE_TAGS,
            PropertyValue::PropertyValues(property_ids::NOTE_TAG, vec![inner]),
        ),
    ];
    assert_eq!(ObjectReference::count_references(&values).unwrap(), 1 + 2 + 1 + 3);
    assert_eq!(ObjectSpaceReference::count_references(&values).unwrap(), 0);
}

#[test]
fn count_references_sees_single_nested_sets() {
    let nested = PropertySet {
        values: vec![(property_ids::PICTURE_CONTAINER, PropertyValue::ObjectId)],
    };
    let values = vec![(property_ids::NOTE_TAG, PropertyValue::PropertySet(nested))];
    assert_eq!(ObjectReference::count_references(&values).unwrap(), 1);
}

#[test]
fn space_references_count_their_own_kind() {
    let values = vec![
        (property_ids::CHILD_GRAPH_SPACE_ELEMENT_NODES, PropertyValue::ObjectSpaceIds(4)),
        (property_ids::PICTURE_CONTAINER, PropertyValue::ObjectId),
    ];
    assert_eq!(ObjectSpaceReference::count_references(&values).unwrap(), 4);
    assert_eq!(ObjectReference::count_references(&values).unwrap(), 1);
}

#[test]
fn get_offset_counts_the_predecessors() {
    let object = empty_object(
        0,
        vec![
            (property_ids::CONTENT_CHILD_NODES, PropertyValue::ObjectIds(2)),
            (property_ids::PICTURE_CONTAINER, PropertyValue::ObjectId),
            (property_ids::EMBEDDED_FILE_CONTAINER, PropertyValue::ObjectId),
        ],
    );
    assert_eq!(
        ObjectReference::get_offset(property_ids::CONTENT_CHILD_NODES, &object).unwrap(),
        0
    );
    assert_eq!(ObjectReference::get_offset(property_ids::PICTURE_CONTAINER, &object).unwrap(), 2);
    assert_eq!(
        ObjectReference::get_offset(property_ids::EMBEDDED_FILE_CONTAINER, &object).unwrap(),
        3
    );
    assert!(matches!(
        ObjectReference::get_offset(property_ids::PAGE_WIDTH, &object),
        Err(ErrorKind::MalformedOneNoteFileData("property not found"))
    ));
}

#[test]
fn parse_string_decodes_utf16() {
    let text: Vec<u8> = "Hi".encode_utf16().flat_map(|u| u.to_le_bytes()).collect();
    let ps = PropertySet {
        values: vec![(property_ids::CACHED_TITLE_STRING, PropertyValue::Vec(text))],
    };
    let units = simple::parse_string(property_ids::CACHED_TITLE_STRING, &ps).unwrap().unwrap();
    assert_eq!(String::from_utf16(&units).unwrap(), "Hi");
}

#[test]
fn parse_string_rejects_odd_lengths() {
    let ps = PropertySet {
        values: vec![(property_ids::CACHED_TITLE_STRING, PropertyValue::Vec(vec![0x41]))],
    };
    assert!(matches!(
        simple::parse_string(property_ids::CACHED_TITLE_STRING, &ps),
        Err(ErrorKind::MalformedOneNoteFileData("string property has odd length"))
    ));
}

#[test]
fn parse_guid_requires_sixteen_bytes() {
    let ps = PropertySet {
        values: vec![(
            property_ids::NOTEBOOK_MANAGEMENT_ENTITY_GUID,
            PropertyValue::Vec(vec![0; 15]),
        )],
    };
    assert!(matches!(
        simple::parse_guid(property_ids::NOTEBOOK_MANAGEMENT_ENTITY_GUID, &ps),
        Err(ErrorKind::MalformedOneNoteFileData("guid property has wrong length"))
    ));
}

#[test]
fn parse_bool_rejects_other_shapes() {
    let ps = PropertySet {
        values: vec![(property_ids::BOLD, PropertyValue::U32(1))],
    };
    assert!(matches!(
        simple::parse_bool(property_ids::BOLD, &ps),
        Err(ErrorKind::MalformedOneNoteFileData("bool property is not a bool"))
    ));
}

#[test]
fn counting_distributes_over_concatenation() {
    fn first() -> Vec<(u32, PropertyValue)> {
        vec![
            (property_ids::PICTURE_CONTAINER, PropertyValue::ObjectId),
            (property_ids::CONTENT_CHILD_NODES, PropertyValue::ObjectIds(2)),
        ]
    }
    fn second() -> Vec<(u32, PropertyValue)> {
        vec![
            (property_ids::PAGE_WIDTH, PropertyValue::U32(1)),
            (property_ids::EMBEDDED_FILE_CONTAINER, PropertyValue::ObjectId),
        ]
    }
    let mut whole = first();
    whole.extend(second());
    assert_eq!(
        ObjectReference::count_references(&whole).unwrap(),
        ObjectReference::count_references(&first()).unwrap()
            + ObjectReference::count_references(&second()).unwrap()
    );
}

#[test]
fn space_offsets_skip_object_references() {
    let object = empty_object(
        0,
        vec![
            (property_ids::CONTENT_CHILD_NODES, PropertyValue::ObjectIds(2)),
            (property_ids::CHILD_GRAPH_SPACE_ELEMENT_NODES, PropertyValue::ObjectSpaceIds(3)),
            (property_ids::VERSION_HISTORY_GRAPH_SPACE_CONTEXT_NODES, PropertyValue::ContextIds(1)),
        ],
    );
    // Space offsets count only space references; the object references
    // before them contribute nothing.
    assert_eq!(
        ObjectSpaceReference::get_offset(
            property_ids::CHILD_GRAPH_SPACE_ELEMENT_NODES, &object).unwrap(),
        0
    );
    assert_eq!(
        ObjectSpaceReference::get_offset(
            property_ids::VERSION_HISTORY_GRAPH_SPACE_CONTEXT_NODES, &object).unwrap(),
        3
    );
}
