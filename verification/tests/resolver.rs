use onestore::compact_id::CompactId;
use onestore::errors::ErrorKind;
use onestore::exguid::ExGuid;
use onestore::guid::Guid;
use onestore::object::{JcId, MappingTable, Object, ObjectPropSet};
use onestore::object_reference::ObjectReference;
use onestore::prop_set::{PropertySet, PropertyValue};
use onestore::property_ids;

fn guid_of(seed: u8) -> Guid {
    Guid { data1: seed as u32, data2: 2, data3: 3, data4: 4 }
}

fn object_with_refs(
    values: Vec<(u32, PropertyValue)>,
    object_ids: Vec<CompactId>,
    guids: Vec<Guid>,
) -> Object {
    Object {
        jc_id: JcId(0),
        context_id: ExGuid { guid: guid_of(0), value: 0 },
        props: ObjectPropSet {
            object_ids,
            object_space_ids: Vec::new(),
            context_ids: Vec::new(),
            properties: PropertySet { values },
        },
        file_data: None,
        mapping: MappingTable { guids },
    }
}

#[test]
fn reference_offsets_follow_property_order() {
    // Two single references in order; the first consumes the first
    // identifier, the second the second.
    let a = CompactId { value: 10, guid_index: 0 };
    let b = CompactId { value: 20, guid_index: 1 };
    let object = object_with_refs(
        vec![
            (property_ids::PICTURE_CONTAINER, PropertyValue::ObjectId),
            (property_ids::EMBEDDED_FILE_CONTAINER, PropertyValue::ObjectId),
        ],
        vec![a, b],
        vec![guid_of(1), guid_of(2)],
    );
    let first = ObjectReference::parse(property_ids::PICTURE_CONTAINER, &object).unwrap();
    assert_eq!(first, Some(ExGuid { guid: guid_of(1), value: 10 }));
    let second = ObjectReference::parse(property_ids::EMBEDDED_FILE_CONTAINER, &object).unwrap();
    assert_eq!(second, Some(ExGuid { guid: guid_of(2), value: 20 }));
}

#[test]
fn absent_reference_property_is_no_reference() {
    let object = object_with_refs(Vec::new(), Vec::new(), Vec::new());
    assert_eq!(ObjectReference::parse(property_ids::PICTURE_CONTAINER, &object).unwrap(), None);
    assert_eq!(
        ObjectReference::parse_vec(property_ids::CONTENT_CHILD_NODES, &object).unwrap(),
        None
    );
}

#[test]
fn reference_of_the_wrong_shape_is_rejected() {
    let object = object_with_refs(
        vec![(property_ids::PICTURE_CONTAINER, PropertyValue::U32(1))],
        Vec::new(),
        Vec::new(),
    );
    assert!(matches!(
        ObjectReference::parse(property_ids::PICTURE_CONTAINER, &object),
        Err(ErrorKind::MalformedOneNoteFileData("object reference is not a object id"))
    ));
    assert!(matches!(
        ObjectReference::parse_vec(property_ids::PICTURE_CONTAINER, &object),
        Err(ErrorKind::MalformedOneNoteFileData(
            "object reference array is not a object id array"
        ))
    ));
}

#[test]
fn reference_past_the_identifier_array_is_corrupt() {
    let object = object_with_refs(
        vec![(property_ids::PICTURE_CONTAINER, PropertyValue::ObjectId)],
        Vec::new(),
        Vec::new(),
    );
    assert!(matches!(
        ObjectReference::parse(property_ids::PICTURE_CONTAINER, &object),
        Err(ErrorKind::MalformedOneNoteFileData("object id index corrupt"))
    ));
}

#[test]
fn reference_array_resolves_a_window() {
    let ids = vec![
        CompactId { value: 1, guid_index: 0 },
        CompactId { value: 2, guid_index: 0 },
        CompactId { value: 3, guid_index: 0 },
    ];
    let object = object_with_refs(
        vec![
            (property_ids::PICTURE_CONTAINER, PropertyValue::ObjectId),
            (property_ids::CONTENT_CHILD_NODES, PropertyValue::ObjectIds(2)),
        ],
        ids,
        vec![guid_of(9)],
    );
    let refs = ObjectReference::parse_vec(property_ids::CONTENT_CHILD_NODES, &object)
        .unwrap()
        .unwrap();
    assert_eq!(
        refs,
        vec![
            ExGuid { guid: guid_of(9), value: 2 },
            ExGuid { guid: guid_of(9), value: 3 },
        ]
    );
}

#[test]
fn reference_array_truncates_at_the_array_end() {
    let ids = vec![CompactId { value: 1, guid_index: 0 }];
    let object = object_with_refs(
        vec![(property_ids::CONTENT_CHILD_NODES, PropertyValue::ObjectIds(5))],
        ids,
        vec![guid_of(9)],
    );
    let refs = ObjectReference::parse_vec(property_ids::CONTENT_CHILD_NODES, &object)
        .unwrap()
        .unwrap();
    assert_eq!(refs, vec![ExGuid { guid: guid_of(9), value: 1 }]);
}

#[test]
fn unresolvable_identifiers_are_left_out() {
    // The second identifier points outside the GUID table.
    let ids = vec![
        CompactId { value: 1, guid_index: 0 },
        CompactId { value: 2, guid_index: 7 },
    ];
    let object = object_with_refs(
        vec![(property_ids::CONTENT_CHILD_NODES, PropertyValue::ObjectIds(2))],
        ids,
        vec![guid_of(9)],
    );
    let refs = ObjectReference::parse_vec(property_ids::CONTENT_CHILD_NODES, &object)
        .unwrap()
        .unwrap();
    assert_eq!(refs, vec![ExGuid { guid: guid_of(9), value: 1 }]);
}

#[test]
fn resolve_id_goes_through_the_guid_table() {
    let object = object_with_refs(Vec::new(), Vec::new(), vec![guid_of(5)]);
    let id = CompactId { value: 11, guid_index: 0 };
    assert_eq!(
        ObjectReference::resolve_id(0, &id, &object),
        Some(ExGuid { guid: guid_of(5), value: 11 })
    );
    let bad = CompactId { value: 11, guid_index: 1 };
    assert_eq!(ObjectReference::resolve_id(1, &bad, &object), None);
}
