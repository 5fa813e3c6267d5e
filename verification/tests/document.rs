use onestore::charset::Charset;
use onestore::color_ref::ColorRef;
use onestore::compact_id::CompactId;
use onestore::embedded_file_node;
use onestore::embedded_file_node::FileType;
use onestore::errors::ErrorKind;
use onestore::exguid::ExGuid;
use onestore::guid::Guid;
use onestore::layout_alignment::LayoutAlignment;
use onestore::note_tag::ActionItemStatus;
use onestore::object::{JcId, MappingTable, Object, ObjectPropSet};
use onestore::object_space::ObjectSpace;
use onestore::paragraph_alignment::ParagraphAlignment;
use onestore::prop_set::{PropertySet, PropertyValue};
use onestore::property_ids;
use onestore::property_set_ids;
use onestore::rich_text::parse_rich_text;
use onestore::time::{Time, Timestamp};

fn guid_of(seed: u8) -> Guid {
    Guid { data1: seed as u32, data2: 0, data3: 0, data4: 0 }
}

fn utf16(text: &str) -> Vec<u8> {
    text.encode_utf16().flat_map(|u| u.to_le_bytes()).collect()
}

fn make_object(
    jc: u32,
    values: Vec<(u32, PropertyValue)>,
    object_ids: Vec<CompactId>,
    guids: Vec<Guid>,
) -> Object {
    Object {
        jc_id: JcId(jc),
        context_id: ExGuid { guid: guid_of(0xee), value: 1 },
        props: ObjectPropSet {
            object_ids,
            object_space_ids: Vec::new(),
            context_ids: Vec::new(),
            properties: PropertySet { values },
        },
        file_data: None,
        mapping: MappingTable { guids },
    }
}

#[test]
fn embedded_file_node_collects_its_fields() {
    let container = CompactId { value: 5, guid_index: 0 };
    let object = make_object(
        property_set_ids::PROPERTY_SET_EMBEDDED_FILE_NODE,
        vec![
            (property_ids::LAST_MODIFIED_TIME, PropertyValue::U32(123)),
            (property_ids::EMBEDDED_FILE_CONTAINER, PropertyValue::ObjectId),
            (property_ids::EMBEDDED_FILE_NAME, PropertyValue::Vec(utf16("clip.wav"))),
            (property_ids::I_RECORD_MEDIA, PropertyValue::U32(1)),
            (property_ids::IS_LAYOUT_SIZE_SET_BY_USER, PropertyValue::Bool(true)),
            (property_ids::PICTURE_WIDTH, PropertyValue::U32(2.0f32.to_bits())),
            (property_ids::RICH_EDIT_TEXT_LANG_ID, PropertyValue::U16(0x0409)),
        ],
        vec![container],
        vec![guid_of(0x11)],
    );
    let data = embedded_file_node::parse(&object).unwrap();
    assert_eq!(data.last_modified, Time(123));
    assert_eq!(
        data.embedded_file_container,
        ExGuid { guid: guid_of(0x11), value: 5 }
    );
    assert_eq!(String::from_utf16(&data.embedded_file_name).unwrap(), "clip.wav");
    assert_eq!(data.file_type, FileType::Audio);
    assert!(data.is_layout_size_set_by_user);
    assert_eq!(f32::from_bits(data.picture_width.unwrap()), 2.0);
    assert_eq!(data.text_language_code, Some(0x0409));
    assert_eq!(data.picture_container, None);
    assert_eq!(data.source_path, None);
    assert_eq!(data.recording_duration, None);
    assert!(data.note_tags.is_empty());
}

#[test]
fn embedded_file_requires_its_container() {
    let object = make_object(
        property_set_ids::PROPERTY_SET_EMBEDDED_FILE_NODE,
        vec![
            (property_ids::LAST_MODIFIED_TIME, PropertyValue::U32(123)),
            (property_ids::EMBEDDED_FILE_NAME, PropertyValue::Vec(utf16("a"))),
        ],
        Vec::new(),
        Vec::new(),
    );
    assert!(matches!(
        embedded_file_node::parse(&object),
        Err(ErrorKind::MalformedOneNoteFileData("embedded file has no file container"))
    ));
}

#[test]
fn embedded_file_requires_its_modification_time() {
    let object = make_object(
        property_set_ids::PROPERTY_SET_EMBEDDED_FILE_NODE,
        Vec::new(),
        Vec::new(),
        Vec::new(),
    );
    assert!(matches!(
        embedded_file_node::parse(&object),
        Err(ErrorKind::MalformedOneNoteFileData("embedded file has no last modified time"))
    ));
}

#[test]
fn rich_text_resolves_run_styles_in_order() {
    let text_id = ExGuid { guid: guid_of(1), value: 1 };
    let bold_id = ExGuid { guid: guid_of(2), value: 2 };
    let italic_id = ExGuid { guid: guid_of(2), value: 3 };
    let base_id = ExGuid { guid: guid_of(2), value: 4 };
    let text_object = make_object(
        property_set_ids::PROPERTY_SET_RICH_TEXT_NODE,
        vec![
            (property_ids::RICH_EDIT_TEXT_UNICODE, PropertyValue::Vec(utf16("one two"))),
            (property_ids::TEXT_RUN_FORMATTING, PropertyValue::ObjectIds(2)),
            (
                property_ids::TEXT_RUN_INDEX,
                PropertyValue::Vec(3u32.to_le_bytes().to_vec()),
            ),
            (property_ids::PARAGRAPH_STYLE, PropertyValue::ObjectId),
            (
                property_ids::PARAGRAPH_SPACE_BEFORE,
                PropertyValue::U32(1.5f32.to_bits()),
            ),
        ],
        vec![
            CompactId { value: 2, guid_index: 0 },
            CompactId { value: 3, guid_index: 0 },
            CompactId { value: 4, guid_index: 0 },
        ],
        vec![guid_of(2)],
    );
    let style = |bold: bool, italic: bool| {
        make_object(
            property_set_ids::PROPERTY_SET_PARAGRAPH_STYLE_OBJECT_FOR_TEXT,
            vec![
                (property_ids::BOLD, PropertyValue::Bool(bold)),
                (property_ids::ITALIC, PropertyValue::Bool(italic)),
            ],
            Vec::new(),
            Vec::new(),
        )
    };
    let space = ObjectSpace {
        objects: vec![
            (text_id, text_object),
            (bold_id, style(true, false)),
            (italic_id, style(false, true)),
            (base_id, style(false, false)),
        ],
    };
    let rich = parse_rich_text(text_id, &space).unwrap();
    assert_eq!(String::from_utf16(rich.text()).unwrap(), "one two");
    assert_eq!(rich.text_run_indices(), &vec![3u32]);
    assert_eq!(rich.text_run_formatting().len(), 2);
    assert!(rich.text_run_formatting()[0].bold());
    assert!(!rich.text_run_formatting()[0].italic());
    assert!(rich.text_run_formatting()[1].italic());
    assert!(!rich.paragraph_style().bold());
    assert_eq!(f32::from_bits(rich.paragraph_space_before()), 1.5);
    assert_eq!(rich.paragraph_alignment(), ParagraphAlignment::Unknown);
}

#[test]
fn layout_alignment_unpacks_its_word() {
    let w: u32 = 0x3 | (1 << 3) | (0x2 << 16);
    let ps = PropertySet {
        values: vec![(property_ids::LAYOUT_ALIGNMENT_IN_PARENT, PropertyValue::U32(w))],
    };
    let la = LayoutAlignment::parse(property_ids::LAYOUT_ALIGNMENT_IN_PARENT, &ps)
        .unwrap()
        .unwrap();
    assert_eq!(la.alignment_horizontal, 3);
    assert!(la.alignment_margin_horizontal);
    assert_eq!(la.alignment_vertical, 2);
    assert!(!la.alignment_margin_vertical);
}

#[test]
fn layout_alignment_discard_bit_reads_as_none() {
    let ps = PropertySet {
        values: vec![(
            property_ids::LAYOUT_ALIGNMENT_SELF,
            PropertyValue::U32(1u32 << 31),
        )],
    };
    assert!(LayoutAlignment::parse(property_ids::LAYOUT_ALIGNMENT_SELF, &ps)
        .unwrap()
        .is_none());
}

#[test]
fn color_ref_reads_auto_and_channels() {
    let auto = PropertySet {
        values: vec![(property_ids::FONT_COLOR, PropertyValue::U32(0xff00_0000))],
    };
    assert_eq!(
        ColorRef::parse(property_ids::FONT_COLOR, &auto).unwrap(),
        Some(ColorRef::Auto)
    );
    let manual = PropertySet {
        values: vec![(property_ids::FONT_COLOR, PropertyValue::U32(0x00cc_bb_aa))],
    };
    assert_eq!(
        ColorRef::parse(property_ids::FONT_COLOR, &manual).unwrap(),
        Some(ColorRef::Manual { r: 0xaa, g: 0xbb, b: 0xcc })
    );
}

#[test]
fn charset_codes_map_to_names() {
    let mac = PropertySet {
        values: vec![(property_ids::CHARSET, PropertyValue::U8(77))],
    };
    assert_eq!(Charset::parse(property_ids::CHARSET, &mac).unwrap(), Some(Charset::Mac));
    let bad = PropertySet {
        values: vec![(property_ids::CHARSET, PropertyValue::U8(42))],
    };
    assert!(matches!(
        Charset::parse(property_ids::CHARSET, &bad),
        Err(ErrorKind::MalformedOneNoteFileData("invalid charset"))
    ));
}

#[test]
fn action_item_status_unpacks_its_bits() {
    let ps = PropertySet {
        values: vec![(property_ids::ACTION_ITEM_STATUS, PropertyValue::U16(0b110))],
    };
    let status = ActionItemStatus::parse(&ps).unwrap().unwrap();
    assert!(!status.completed);
    assert!(status.disabled);
    assert!(status.task_tag);
}

#[test]
fn times_carry_their_raw_words() {
    let ps = PropertySet {
        values: vec![
            (property_ids::NOTE_TAG_CREATED, PropertyValue::U32(77)),
            (property_ids::TOPOLOGY_CREATION_TIME_STAMP, PropertyValue::U64(0x1_0000_0000)),
        ],
    };
    assert_eq!(Time::parse(property_ids::NOTE_TAG_CREATED, &ps).unwrap(), Some(Time(77)));
    assert_eq!(
        Timestamp::parse(property_ids::TOPOLOGY_CREATION_TIME_STAMP, &ps).unwrap(),
        Some(Timestamp(0x1_0000_0000))
    );
}

#[test]
fn error_messages_name_their_cause() {
    assert_eq!(ErrorKind::UnexpectedEof.message(), "unexpected end of input");
    assert_eq!(
        ErrorKind::MalformedFssHttpBData("invalid padding data").message(),
        "invalid padding data"
    );
}
