use vstd::prelude::*;
use crate::errors::ErrorKind;
use crate::exguid::ExGuid;
use crate::layout_alignment::LayoutAlignment;
use crate::note_tag_container::{spec_note_tags_ok, spec_note_tags_verdict, Data as NoteTagData};
use crate::object::{JcId, Object};
use crate::object_reference::{spec_single_ref, spec_single_ref_err, ObjectReference};
use crate::property_ids::{
    EMBEDDED_FILE_CONTAINER, EMBEDDED_FILE_NAME, IS_LAYOUT_SIZE_SET_BY_USER, I_RECORD_MEDIA,
    LAST_MODIFIED_TIME, LAYOUT_ALIGNMENT_IN_PARENT, LAYOUT_ALIGNMENT_SELF, LAYOUT_MAX_HEIGHT,
    LAYOUT_MAX_WIDTH, OFFSET_FROM_PARENT_HORIZ, OFFSET_FROM_PARENT_VERT, PICTURE_CONTAINER,
    PICTURE_HEIGHT, PICTURE_WIDTH, RICH_EDIT_TEXT_LANG_ID, RICH_EDIT_TEXT_UNICODE,
    SOURCE_FILEPATH,
};
use crate::property_set_ids::PROPERTY_SET_EMBEDDED_FILE_NODE;
use crate::prop_set::{spec_get, PropertyValue};
use crate::simple;
use crate::simple::{
    spec_bool_err, spec_string_err, spec_u16_err, spec_u32_err, spec_utf16_units,
};
use crate::time::Time;

verus! {

/// An embedded file's file type.
#[derive(Debug, Clone, Copy, PartialEq, Eq, Structural, Hash)]
pub enum FileType {
    /// Unknown.
    Unknown,
    /// An audio file.
    Audio,
    /// A video file.
    Video,
}

/// The file type the recording-media property names: absent means
/// unknown, one means audio, two means video; other words are invalid.
pub open spec fn spec_file_type_ok(object: Object, r: Result<FileType, ErrorKind>) -> bool {
    match spec_get(object.props.properties.values@, I_RECORD_MEDIA) {
        None => r == Ok::<FileType, ErrorKind>(FileType::Unknown),
        Some(v) => {
            &&& (v matches PropertyValue::U32(w) ==> if w == 1 {
                r == Ok::<FileType, ErrorKind>(FileType::Audio)
            } else if w == 2 {
                r == Ok::<FileType, ErrorKind>(FileType::Video)
            } else {
                r == Err::<FileType, ErrorKind>(ErrorKind::MalformedOneNoteFileData(
                    "invalid file type"))
            })
            &&& (!(v matches PropertyValue::U32(_)) ==> r == Err::<FileType, ErrorKind>(
                ErrorKind::MalformedOneNoteFileData("file type is not a u32")))
        },
    }
}

impl FileType {
    /// Read the file type of an embedded-file object.
    pub fn parse(object: &Object) -> (r: Result<FileType, ErrorKind>)
        ensures
            spec_file_type_ok(*object, r),
    {
        let w = match simple::parse_u32(I_RECORD_MEDIA, &object.props.properties) {
            Ok(Some(v)) => v,
            Ok(None) => { return Ok(FileType::Unknown); },
            Err(_) => {
                return Err(ErrorKind::MalformedOneNoteFileData("file type is not a u32"));
            },
        };
        if w == 1 {
            Ok(FileType::Audio)
        } else if w == 2 {
            Ok(FileType::Video)
        } else {
            Err(ErrorKind::MalformedOneNoteFileData("invalid file type"))
        }
    }
}

/// The rejection reading the file type produces, if any.
pub open spec fn spec_file_type_err(object: Object) -> Option<ErrorKind> {
    match spec_get(object.props.properties.values@, I_RECORD_MEDIA) {
        None => None,
        Some(v) => match v {
            PropertyValue::U32(w) => if w == 1 || w == 2 {
                None
            } else {
                Some(ErrorKind::MalformedOneNoteFileData("invalid file type"))
            },
            _ => Some(ErrorKind::MalformedOneNoteFileData("file type is not a u32")),
        },
    }
}

/// The rejection interpreting an embedded-file object produces, if any,
/// in the order the checks run.  `parse` fails exactly on these.
pub open spec fn spec_embedded_file_verdict(object: Object) -> Option<ErrorKind> {
    let vals = object.props.properties.values@;
    if object.jc_id != JcId(PROPERTY_SET_EMBEDDED_FILE_NODE) {
        Some(ErrorKind::MalformedOneNoteFileData("unexpected object type"))
    } else if spec_u32_err(vals, LAST_MODIFIED_TIME) is Some {
        spec_u32_err(vals, LAST_MODIFIED_TIME)
    } else if spec_get(vals, LAST_MODIFIED_TIME) is None {
        Some(ErrorKind::MalformedOneNoteFileData("embedded file has no last modified time"))
    } else if spec_single_ref_err(object, PICTURE_CONTAINER) is Some {
        spec_single_ref_err(object, PICTURE_CONTAINER)
    } else if spec_u32_err(vals, LAYOUT_MAX_WIDTH) is Some {
        spec_u32_err(vals, LAYOUT_MAX_WIDTH)
    } else if spec_u32_err(vals, LAYOUT_MAX_HEIGHT) is Some {
        spec_u32_err(vals, LAYOUT_MAX_HEIGHT)
    } else if spec_bool_err(vals, IS_LAYOUT_SIZE_SET_BY_USER) is Some {
        spec_bool_err(vals, IS_LAYOUT_SIZE_SET_BY_USER)
    } else if spec_string_err(vals, RICH_EDIT_TEXT_UNICODE) is Some {
        spec_string_err(vals, RICH_EDIT_TEXT_UNICODE)
    } else if spec_u16_err(vals, RICH_EDIT_TEXT_LANG_ID) is Some {
        spec_u16_err(vals, RICH_EDIT_TEXT_LANG_ID)
    } else if spec_u32_err(vals, LAYOUT_ALIGNMENT_IN_PARENT) is Some {
        spec_u32_err(vals, LAYOUT_ALIGNMENT_IN_PARENT)
    } else if spec_u32_err(vals, LAYOUT_ALIGNMENT_SELF) is Some {
        spec_u32_err(vals, LAYOUT_ALIGNMENT_SELF)
    } else if spec_single_ref_err(object, EMBEDDED_FILE_CONTAINER) is Some {
        spec_single_ref_err(object, EMBEDDED_FILE_CONTAINER)
    } else if spec_single_ref(object, EMBEDDED_FILE_CONTAINER) is None {
        Some(ErrorKind::MalformedOneNoteFileData("embedded file has no file container"))
    } else if spec_string_err(vals, EMBEDDED_FILE_NAME) is Some {
        spec_string_err(vals, EMBEDDED_FILE_NAME)
    } else if spec_get(vals, EMBEDDED_FILE_NAME) is None {
        Some(ErrorKind::MalformedOneNoteFileData("embedded file has no file name"))
    } else if spec_string_err(vals, SOURCE_FILEPATH) is Some {
        spec_string_err(vals, SOURCE_FILEPATH)
    } else if spec_file_type_err(object) is Some {
        spec_file_type_err(object)
    } else if spec_u32_err(vals, PICTURE_WIDTH) is Some {
        spec_u32_err(vals, PICTURE_WIDTH)
    } else if spec_u32_err(vals, PICTURE_HEIGHT) is Some {
        spec_u32_err(vals, PICTURE_HEIGHT)
    } else if spec_u32_err(vals, OFFSET_FROM_PARENT_HORIZ) is Some {
        spec_u32_err(vals, OFFSET_FROM_PARENT_HORIZ)
    } else if spec_u32_err(vals, OFFSET_FROM_PARENT_VERT) is Some {
        spec_u32_err(vals, OFFSET_FROM_PARENT_VERT)
    } else if spec_note_tags_verdict(object) is Some {
        spec_note_tags_verdict(object)
    } else {
        None
    }
}

/// An embedded-file node.  Lengths and offsets that the format stores
/// as four-byte floating-point words are kept as their raw bit
/// patterns.
#[derive(Debug)]
pub struct Data {
    pub last_modified: Time,
    pub picture_container: Option<ExGuid>,
    pub layout_max_width: Option<u32>,
    pub layout_max_height: Option<u32>,
    pub is_layout_size_set_by_user: bool,
    pub text: Option<Vec<u16>>,
    pub text_language_code: Option<u32>,
    pub layout_alignment_in_parent: Option<LayoutAlignment>,
    pub layout_alignment_self: Option<LayoutAlignment>,
    pub embedded_file_container: ExGuid,
    pub embedded_file_name: Vec<u16>,
    pub source_path: Option<Vec<u16>>,
    pub file_type: FileType,
    pub picture_width: Option<u32>,
    pub picture_height: Option<u32>,
    pub note_tags: Vec<NoteTagData>,
    pub offset_from_parent_horiz: Option<u32>,
    pub offset_from_parent_vert: Option<u32>,
    /// The identifier of the recording-duration property is not known;
    /// the field is never filled in.
    pub recording_duration: Option<u32>,
}

/// Interpret an embedded-file object.  The last-modified time, the
/// file container reference, and the file name are required; the
/// language code, nominally a 32-bit identifier, travels truncated to
/// 16 bits in the format and is widened back here.
pub fn parse(object: &Object) -> (r: Result<Data, ErrorKind>)
    ensures
        ({
            let vals = object.props.properties.values@;
            match r {
                Ok(data) => {
                    &&& spec_embedded_file_verdict(*object) is None
                    &&& object.jc_id == JcId(PROPERTY_SET_EMBEDDED_FILE_NODE)
                    &&& spec_get(vals, LAST_MODIFIED_TIME) matches Some(v)
                        && (v matches PropertyValue::U32(t) && data.last_modified == Time(t))
                    &&& data.picture_container == spec_single_ref(*object, PICTURE_CONTAINER)
                    &&& (match spec_get(vals, LAYOUT_MAX_WIDTH) {
                        None => data.layout_max_width is None,
                        Some(v) => v matches PropertyValue::U32(w)
                            && data.layout_max_width == Some(w),
                    })
                    &&& (match spec_get(vals, LAYOUT_MAX_HEIGHT) {
                        None => data.layout_max_height is None,
                        Some(v) => v matches PropertyValue::U32(w)
                            && data.layout_max_height == Some(w),
                    })
                    &&& data.is_layout_size_set_by_user == (spec_get(
                        vals, IS_LAYOUT_SIZE_SET_BY_USER) == Some(PropertyValue::Bool(true)))
                    &&& (match spec_get(vals, RICH_EDIT_TEXT_UNICODE) {
                        None => data.text is None,
                        Some(v) => v matches PropertyValue::Vec(d) && (d@.len() % 2 == 0 && (
                            data.text matches Some(t) && t@ == spec_utf16_units(d@))),
                    })
                    &&& (match spec_get(vals, RICH_EDIT_TEXT_LANG_ID) {
                        None => data.text_language_code is None,
                        Some(v) => v matches PropertyValue::U16(w)
                            && data.text_language_code == Some(w as u32),
                    })
                    &&& Some(data.embedded_file_container) == spec_single_ref(
                        *object, EMBEDDED_FILE_CONTAINER)
                    &&& spec_get(vals, EMBEDDED_FILE_NAME) matches Some(v)
                        && (v matches PropertyValue::Vec(d) && (d@.len() % 2 == 0
                        && data.embedded_file_name@ == spec_utf16_units(d@)))
                    &&& (match spec_get(vals, SOURCE_FILEPATH) {
                        None => data.source_path is None,
                        Some(v) => v matches PropertyValue::Vec(d) && (d@.len() % 2 == 0 && (
                            data.source_path matches Some(t) && t@ == spec_utf16_units(d@))),
                    })
                    &&& spec_file_type_ok(*object, Ok(data.file_type))
                    &&& (match spec_get(vals, PICTURE_WIDTH) {
                        None => data.picture_width is None,
                        Some(v) => v matches PropertyValue::U32(w)
                            && data.picture_width == Some(w),
                    })
                    &&& (match spec_get(vals, PICTURE_HEIGHT) {
                        None => data.picture_height is None,
                        Some(v) => v matches PropertyValue::U32(w)
                            && data.picture_height == Some(w),
                    })
                    &&& (match spec_get(vals, LAYOUT_ALIGNMENT_IN_PARENT) {
                        None => data.layout_alignment_in_parent is None,
                        Some(v) => v matches PropertyValue::U32(w)
                            && data.layout_alignment_in_parent
                            == crate::layout_alignment::spec_layout_alignment(w),
                    })
                    &&& (match spec_get(vals, LAYOUT_ALIGNMENT_SELF) {
                        None => data.layout_alignment_self is None,
                        Some(v) => v matches PropertyValue::U32(w)
                            && data.layout_alignment_self
                            == crate::layout_alignment::spec_layout_alignment(w),
                    })
                    &&& spec_note_tags_ok(*object, data.note_tags@)
                    &&& (match spec_get(vals, OFFSET_FROM_PARENT_HORIZ) {
                        None => data.offset_from_parent_horiz is None,
                        Some(v) => v matches PropertyValue::U32(w)
                            && data.offset_from_parent_horiz == Some(w),
                    })
                    &&& (match spec_get(vals, OFFSET_FROM_PARENT_VERT) {
                        None => data.offset_from_parent_vert is None,
                        Some(v) => v matches PropertyValue::U32(w)
                            && data.offset_from_parent_vert == Some(w),
                    })
                    &&& data.recording_duration is None
                },
                Err(e) => spec_embedded_file_verdict(*object) == Some(e),
            }
        }),
{
    if object.id().0 != PROPERTY_SET_EMBEDDED_FILE_NODE {
        return Err(ErrorKind::MalformedOneNoteFileData("unexpected object type"));
    }
    let props = &object.props.properties;
    let last_modified = match Time::parse(LAST_MODIFIED_TIME, props) {
        Ok(Some(t)) => t,
        Ok(None) => {
            return Err(ErrorKind::MalformedOneNoteFileData(
                "embedded file has no last modified time"));
        },
        Err(e) => { return Err(e); },
    };
    let picture_container = match ObjectReference::parse(PICTURE_CONTAINER, object) {
        Ok(v) => v,
        Err(e) => { return Err(e); },
    };
    let layout_max_width = match simple::parse_u32(LAYOUT_MAX_WIDTH, props) {
        Ok(v) => v,
        Err(e) => { return Err(e); },
    };
    let layout_max_height = match simple::parse_u32(LAYOUT_MAX_HEIGHT, props) {
        Ok(v) => v,
        Err(e) => { return Err(e); },
    };
    let is_layout_size_set_by_user = match simple::parse_bool(IS_LAYOUT_SIZE_SET_BY_USER, props) {
        Ok(Some(b)) => b,
        Ok(None) => false,
        Err(e) => { return Err(e); },
    };
    let text = match simple::parse_string(RICH_EDIT_TEXT_UNICODE, props) {
        Ok(v) => v,
        Err(e) => { return Err(e); },
    };
    let text_language_code = match simple::parse_u16(RICH_EDIT_TEXT_LANG_ID, props) {
        Ok(Some(w)) => Some(w as u32),
        Ok(None) => None,
        Err(e) => { return Err(e); },
    };
    let layout_alignment_in_parent = match LayoutAlignment::parse(
        LAYOUT_ALIGNMENT_IN_PARENT, props) {
        Ok(v) => v,
        Err(e) => { return Err(e); },
    };
    let layout_alignment_self = match LayoutAlignment::parse(LAYOUT_ALIGNMENT_SELF, props) {
        Ok(v) => v,
        Err(e) => { return Err(e); },
    };
    let embedded_file_container = match ObjectReference::parse(EMBEDDED_FILE_CONTAINER, object) {
        Ok(Some(id)) => id,
        Ok(None) => {
            return Err(ErrorKind::MalformedOneNoteFileData(
                "embedded file has no file container"));
        },
        Err(e) => { return Err(e); },
    };
    let embedded_file_name = match simple::parse_string(EMBEDDED_FILE_NAME, props) {
        Ok(Some(name)) => name,
        Ok(None) => {
            return Err(ErrorKind::MalformedOneNoteFileData("embedded file has no file name"));
        },
        Err(e) => { return Err(e); },
    };
    let source_path = match simple::parse_string(SOURCE_FILEPATH, props) {
        Ok(v) => v,
        Err(e) => { return Err(e); },
    };
    let file_type = match FileType::parse(object) {
        Ok(v) => v,
        Err(e) => { return Err(e); },
    };
    let picture_width = match simple::parse_u32(PICTURE_WIDTH, props) {
        Ok(v) => v,
        Err(e) => { return Err(e); },
    };
    let picture_height = match simple::parse_u32(PICTURE_HEIGHT, props) {
        Ok(v) => v,
        Err(e) => { return Err(e); },
    };
    let offset_from_parent_horiz = match simple::parse_u32(OFFSET_FROM_PARENT_HORIZ, props) {
        Ok(v) => v,
        Err(e) => { return Err(e); },
    };
    let offset_from_parent_vert = match simple::parse_u32(OFFSET_FROM_PARENT_VERT, props) {
        Ok(v) => v,
        Err(e) => { return Err(e); },
    };
    let note_tags = match NoteTagData::parse(object) {
        Ok(Some(v)) => v,
        Ok(None) => Vec::new(),
        Err(e) => { return Err(e); },
    };

    Ok(Data {
        last_modified,
        picture_container,
        layout_max_width,
        layout_max_height,
        is_layout_size_set_by_user,
        text,
        text_language_code,
        layout_alignment_in_parent,
        layout_alignment_self,
        embedded_file_container,
        embedded_file_name,
        source_path,
        file_type,
        picture_width,
        picture_height,
        note_tags,
        offset_from_parent_horiz,
        offset_from_parent_vert,
        recording_duration: None,
    })
}

} // verus!
