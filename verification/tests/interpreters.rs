use onestore::compact_id::CompactId;
use onestore::embedded_file_node::FileType;
use onestore::errors::ErrorKind;
use onestore::exguid::ExGuid;
use onestore::guid::Guid;
use onestore::note_tag_container::Data as NoteTagData;
use onestore::object::{JcId, MappingTable, Object, ObjectPropSet};
use onestore::object_space::ObjectSpace;
use onestore::page_node;
use onestore::prop_set::{PropertySet, PropertyValue};
use onestore::property_ids;
use onestore::property_set_ids;
use onestore::rich_text::parse_rich_text;
use onestore::section_node;
use onestore::time::Time;
use onestore::toc_container;

fn guid_of(seed: u8) -> Guid {
    Guid { data1: seed as u32, data2: 0, data3: 0, data4: 0 }
}

fn utf16(text: &str) -> Vec<u8> {
    text.encode_utf16().flat_map(|u| u.to_le_bytes()).collect()
}

fn make_object(
    jc: u32,
    values: Vec<(u32, PropertyValue)>,
    object_ids: Vec<CompactId>,
    guids: Vec<Guid>,
) -> Object {
    Object {
        jc_id: JcId(jc),
        context_id: ExGuid { guid: guid_of(0xee), value: 1 },
        props: ObjectPropSet {
            object_ids,
            object_space_ids: Vec::new(),
            context_ids: Vec::new(),
            properties: PropertySet { values },
        },
        file_data: None,
        mapping: MappingTable { guids },
    }
}

#[test]
fn page_with_title_and_dimensions() {
    let width = 3.5f32;
    let height = 9.25f32;
    let object = make_object(
        property_set_ids::PROPERTY_SET_PAGE_NODE,
        vec![
            (property_ids::CACHED_TITLE_STRING, PropertyValue::Vec(utf16("Hello"))),
            (property_ids::PAGE_WIDTH, PropertyValue::U32(width.to_bits())),
            (property_ids::PAGE_HEIGHT, PropertyValue::U32(height.to_bits())),
        ],
        Vec::new(),
        Vec::new(),
    );
    let page = page_node::parse(&object).unwrap();
    assert_eq!(String::from_utf16(&page.title.unwrap()).unwrap(), "Hello");
    assert_eq!(f32::from_bits(page.page_width.unwrap()), 3.5);
    assert_eq!(f32::from_bits(page.page_height.unwrap()), 9.25);
    assert_eq!(page.page_level, None);
}

#[test]
fn page_interpreter_checks_the_schema() {
    let object = make_object(
        property_set_ids::PROPERTY_SET_SECTION_NODE,
        Vec::new(),
        Vec::new(),
        Vec::new(),
    );
    assert!(matches!(
        page_node::parse(&object),
        Err(ErrorKind::MalformedOneNoteFileData("unexpected object type"))
    ));
}

#[test]
fn toc_filename_substitution() {
    let object = make_object(
        property_set_ids::PROPERTY_SET_TOC_CONTAINER,
        vec![(property_ids::FOLDER_CHILD_FILENAME, PropertyValue::Vec(utf16("A^MB^JC")))],
        Vec::new(),
        Vec::new(),
    );
    let toc = toc_container::parse(&object).unwrap();
    assert_eq!(String::from_utf16(&toc.filename.unwrap()).unwrap(), "A+B,C");
    assert!(toc.children.is_empty());
    assert_eq!(toc.ordering_id, None);
}

#[test]
fn toc_substitution_leaves_plain_text_alone() {
    let object = make_object(
        property_set_ids::PROPERTY_SET_TOC_CONTAINER,
        vec![
            (property_ids::FOLDER_CHILD_FILENAME, PropertyValue::Vec(utf16("notes^Xone"))),
            (property_ids::NOTEBOOK_ELEMENT_ORDERING_ID, PropertyValue::U32(7)),
        ],
        Vec::new(),
        Vec::new(),
    );
    let toc = toc_container::parse(&object).unwrap();
    assert_eq!(String::from_utf16(&toc.filename.unwrap()).unwrap(), "notes^Xone");
    assert_eq!(toc.ordering_id, Some(7));
}

fn note_tag_inner(created: u32) -> PropertySet {
    PropertySet {
        values: vec![
            (property_ids::NOTE_TAG_DEFINITION_OID, PropertyValue::ObjectId),
            (property_ids::NOTE_TAG_CREATED, PropertyValue::U32(created)),
            (property_ids::ACTION_ITEM_STATUS, PropertyValue::U16(0b101)),
        ],
    }
}

#[test]
fn nested_note_tag_states_resolve_in_order() {
    // Two nested note-tag sets; the outer object's identifier array
    // holds their definitions in order.
    let d1 = CompactId { value: 1, guid_index: 0 };
    let d2 = CompactId { value: 2, guid_index: 0 };
    let object = make_object(
        0,
        vec![(
            property_ids::NOTE_TAGS,
            PropertyValue::PropertyValues(
                property_ids::NOTE_TAG,
                vec![note_tag_inner(100), note_tag_inner(200)],
            ),
        )],
        vec![d1, d2],
        vec![guid_of(3)],
    );
    let tags = NoteTagData::parse(&object).unwrap().unwrap();
    assert_eq!(tags.len(), 2);
    assert_eq!(tags[0].definition, Some(ExGuid { guid: guid_of(3), value: 1 }));
    assert_eq!(tags[1].definition, Some(ExGuid { guid: guid_of(3), value: 2 }));
    assert_eq!(tags[0].created_at, Time(100));
    assert_eq!(tags[1].created_at, Time(200));
    assert_eq!(tags[0].completed_at, None);
    assert!(tags[0].item_status.completed);
    assert!(!tags[0].item_status.disabled);
    assert!(tags[0].item_status.task_tag);
}

#[test]
fn note_tags_with_zero_sets_are_an_empty_vector() {
    let object = make_object(
        0,
        vec![(
            property_ids::NOTE_TAGS,
            PropertyValue::PropertyValues(property_ids::NOTE_TAG, Vec::new()),
        )],
        Vec::new(),
        Vec::new(),
    );
    let tags = NoteTagData::parse(&object).unwrap().unwrap();
    assert!(tags.is_empty());
}

#[test]
fn missing_note_tags_read_as_nothing() {
    let object = make_object(0, Vec::new(), Vec::new(), Vec::new());
    assert!(NoteTagData::parse(&object).unwrap().is_none());
}

#[test]
fn note_tags_of_the_wrong_shape_are_rejected() {
    let object = make_object(
        0,
        vec![(property_ids::NOTE_TAGS, PropertyValue::U32(5))],
        Vec::new(),
        Vec::new(),
    );
    assert!(matches!(
        NoteTagData::parse(&object),
        Err(ErrorKind::MalformedOneNoteFileData("note tag state is not a property values list"))
    ));
}

#[test]
fn file_type_codes() {
    let unknown = make_object(0, Vec::new(), Vec::new(), Vec::new());
    assert_eq!(FileType::parse(&unknown).unwrap(), FileType::Unknown);
    let audio = make_object(
        0,
        vec![(property_ids::I_RECORD_MEDIA, PropertyValue::U32(1))],
        Vec::new(),
        Vec::new(),
    );
    assert_eq!(FileType::parse(&audio).unwrap(), FileType::Audio);
    let video = make_object(
        0,
        vec![(property_ids::I_RECORD_MEDIA, PropertyValue::U32(2))],
        Vec::new(),
        Vec::new(),
    );
    assert_eq!(FileType::parse(&video).unwrap(), FileType::Video);
    let bad = make_object(
        0,
        vec![(property_ids::I_RECORD_MEDIA, PropertyValue::U32(3))],
        Vec::new(),
        Vec::new(),
    );
    assert!(matches!(
        FileType::parse(&bad),
        Err(ErrorKind::MalformedOneNoteFileData("invalid file type"))
    ));
    let wrong_shape = make_object(
        0,
        vec![(property_ids::I_RECORD_MEDIA, PropertyValue::Bool(true))],
        Vec::new(),
        Vec::new(),
    );
    assert!(matches!(
        FileType::parse(&wrong_shape),
        Err(ErrorKind::MalformedOneNoteFileData("file type is not a u32"))
    ));
}

#[test]
fn section_requires_its_entity_guid() {
    let object = make_object(
        property_set_ids::PROPERTY_SET_SECTION_NODE,
        vec![(property_ids::TOPOLOGY_CREATION_TIME_STAMP, PropertyValue::U64(44))],
        Vec::new(),
        Vec::new(),
    );
    assert!(matches!(
        section_node::parse(&object),
        Err(ErrorKind::MalformedOneNoteFileData("section has no guid"))
    ));
}

#[test]
fn section_collects_its_fields() {
    let entity = guid_of(0x55);
    let mut guid_data = Vec::new();
    guid_data.extend_from_slice(&entity.data1.to_le_bytes());
    guid_data.extend_from_slice(&entity.data2.to_le_bytes());
    guid_data.extend_from_slice(&entity.data3.to_le_bytes());
    guid_data.extend_from_slice(&entity.data4.to_le_bytes());
    let object = make_object(
        property_set_ids::PROPERTY_SET_SECTION_NODE,
        vec![
            (property_ids::NOTEBOOK_MANAGEMENT_ENTITY_GUID, PropertyValue::Vec(guid_data)),
            (property_ids::ELEMENT_CHILD_NODES, PropertyValue::ObjectIds(1)),
            (property_ids::TOPOLOGY_CREATION_TIME_STAMP, PropertyValue::U64(44)),
        ],
        vec![CompactId { value: 8, guid_index: 0 }],
        vec![guid_of(0x66)],
    );
    let section = section_node::parse(&object).unwrap();
    assert_eq!(section.entity_guid, entity);
    assert_eq!(section.page_series, vec![ExGuid { guid: guid_of(0x66), value: 8 }]);
    assert_eq!(section.created_at.0, 44);
}

#[test]
fn rich_text_resolves_styles_through_the_space() {
    let text_id = ExGuid { guid: guid_of(1), value: 1 };
    let style_id = ExGuid { guid: guid_of(2), value: 2 };
    let style_cid = CompactId { value: 2, guid_index: 0 };
    let text_object = make_object(
        property_set_ids::PROPERTY_SET_RICH_TEXT_NODE,
        vec![
            (property_ids::RICH_EDIT_TEXT_UNICODE, PropertyValue::Vec(utf16("Hi there"))),
            (property_ids::PARAGRAPH_STYLE, PropertyValue::ObjectId),
        ],
        vec![style_cid],
        vec![guid_of(2)],
    );
    let style_object = make_object(
        property_set_ids::PROPERTY_SET_PARAGRAPH_STYLE_OBJECT,
        vec![
            (property_ids::BOLD, PropertyValue::Bool(true)),
            (property_ids::FONT_SIZE, PropertyValue::U16(24)),
        ],
        Vec::new(),
        Vec::new(),
    );
    let space = ObjectSpace {
        objects: vec![(text_id, text_object), (style_id, style_object)],
    };
    let rich = parse_rich_text(text_id, &space).unwrap();
    assert_eq!(String::from_utf16(rich.text()).unwrap(), "Hi there");
    assert!(rich.paragraph_style().bold());
    assert_eq!(rich.paragraph_style().font_size(), Some(24));
    assert!(!rich.paragraph_style().italic());
    assert!(rich.text_run_formatting().is_empty());
    assert!(rich.text_run_indices().is_empty());
}

#[test]
fn rich_text_missing_content_is_reported() {
    let space = ObjectSpace { objects: Vec::new() };
    let id = ExGuid { guid: guid_of(1), value: 1 };
    assert!(matches!(
        parse_rich_text(id, &space),
        Err(ErrorKind::MalformedOneNoteData("rich text content is missing"))
    ));
}

#[test]
fn rich_text_missing_style_is_reported() {
    let text_id = ExGuid { guid: guid_of(1), value: 1 };
    let style_cid = CompactId { value: 2, guid_index: 0 };
    let text_object = make_object(
        property_set_ids::PROPERTY_SET_RICH_TEXT_NODE,
        vec![(property_ids::PARAGRAPH_STYLE, PropertyValue::ObjectId)],
        vec![style_cid],
        vec![guid_of(2)],
    );
    let space = ObjectSpace { objects: vec![(text_id, text_object)] };
    assert!(matches!(
        parse_rich_text(text_id, &space),
        Err(ErrorKind::MalformedOneNoteData("paragraph styling is missing"))
    ));
}

#[test]
fn note_tag_without_created_time_is_rejected() {
    let inner = PropertySet {
        values: vec![(property_ids::ACTION_ITEM_STATUS, PropertyValue::U16(1))],
    };
    let object = make_object(
        0,
        vec![(
            property_ids::NOTE_TAGS,
            PropertyValue::PropertyValues(property_ids::NOTE_TAG, vec![inner]),
        )],
        Vec::new(),
        Vec::new(),
    );
    assert!(matches!(
        NoteTagData::parse(&object),
        Err(ErrorKind::MalformedOneNoteFileData("note tag has no created at time"))
    ));
}

#[test]
fn note_tag_without_status_is_rejected() {
    let inner = PropertySet {
        values: vec![(property_ids::NOTE_TAG_CREATED, PropertyValue::U32(9))],
    };
    let object = make_object(
        0,
        vec![(
            property_ids::NOTE_TAGS,
            PropertyValue::PropertyValues(property_ids::NOTE_TAG, vec![inner]),
        )],
        Vec::new(),
        Vec::new(),
    );
    assert!(matches!(
        NoteTagData::parse(&object),
        Err(ErrorKind::MalformedOneNoteFileData("note tag container has no item status"))
    ));
}

#[test]
fn page_property_of_the_wrong_shape_is_rejected() {
    let object = make_object(
        property_set_ids::PROPERTY_SET_PAGE_NODE,
        vec![(property_ids::PAGE_WIDTH, PropertyValue::Bool(true))],
        Vec::new(),
        Vec::new(),
    );
    assert!(matches!(
        page_node::parse(&object),
        Err(ErrorKind::MalformedOneNoteFileData("u32 property is not a u32"))
    ));
}
