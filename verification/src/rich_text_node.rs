use vstd::prelude::*;
use crate::errors::ErrorKind;
use crate::exguid::ExGuid;
use crate::layout_alignment::LayoutAlignment;
use crate::note_tag_container::{spec_note_tags_ok, spec_note_tags_verdict, Data as NoteTagData};
use crate::object::{JcId, Object};
use crate::object_reference::{
    spec_single_ref, spec_single_ref_err, spec_vec_ref, spec_vec_ref_err, ObjectReference,
};
use crate::paragraph_alignment::ParagraphAlignment;
use crate::property_ids::{
    LAYOUT_ALIGNMENT_IN_PARENT, LAYOUT_ALIGNMENT_SELF, PARAGRAPH_ALIGNMENT,
    PARAGRAPH_LINE_SPACING_EXACT, PARAGRAPH_SPACE_AFTER, PARAGRAPH_SPACE_BEFORE, PARAGRAPH_STYLE,
    RICH_EDIT_TEXT_UNICODE, TEXT_RUN_FORMATTING, TEXT_RUN_INDEX,
};
use crate::property_set_ids::PROPERTY_SET_RICH_TEXT_NODE;
use crate::prop_set::{spec_get, PropertyValue};
use crate::simple;
use crate::simple::{
    spec_string_err, spec_u32_array_err, spec_u32_err, spec_u32_items, spec_u8_err,
    spec_utf16_units,
};

verus! {

/// A rich-text node, as stored: the paragraph text, the identities of
/// the text-run styles, the run boundaries, and the paragraph's own
/// style and spacing.  Spacing words are four-byte floating-point bit
/// patterns.
#[derive(Debug)]
pub struct Data {
    pub text: Option<Vec<u16>>,
    pub text_run_formatting: Vec<ExGuid>,
    pub text_run_indices: Vec<u32>,
    pub paragraph_style: ExGuid,
    pub paragraph_space_before: u32,
    pub paragraph_space_after: u32,
    pub paragraph_line_spacing_exact: Option<u32>,
    pub paragraph_alignment: ParagraphAlignment,
    pub layout_alignment_in_parent: Option<LayoutAlignment>,
    pub layout_alignment_self: Option<LayoutAlignment>,
    pub note_tags: Vec<NoteTagData>,
}

/// The rejection interpreting a rich-text object produces, if any, in
/// the order the checks run.  `parse` fails exactly on these.
pub open spec fn spec_rich_text_verdict(object: Object) -> Option<ErrorKind> {
    let vals = object.props.properties.values@;
    if object.jc_id != JcId(PROPERTY_SET_RICH_TEXT_NODE) {
        Some(ErrorKind::MalformedOneNoteFileData("unexpected object type"))
    } else if spec_string_err(vals, RICH_EDIT_TEXT_UNICODE) is Some {
        spec_string_err(vals, RICH_EDIT_TEXT_UNICODE)
    } else if spec_vec_ref_err(object, TEXT_RUN_FORMATTING) is Some {
        spec_vec_ref_err(object, TEXT_RUN_FORMATTING)
    } else if spec_u32_array_err(vals, TEXT_RUN_INDEX) is Some {
        spec_u32_array_err(vals, TEXT_RUN_INDEX)
    } else if spec_single_ref_err(object, PARAGRAPH_STYLE) is Some {
        spec_single_ref_err(object, PARAGRAPH_STYLE)
    } else if spec_single_ref(object, PARAGRAPH_STYLE) is None {
        Some(ErrorKind::MalformedOneNoteFileData("rich text has no paragraph style"))
    } else if spec_u32_err(vals, PARAGRAPH_SPACE_BEFORE) is Some {
        spec_u32_err(vals, PARAGRAPH_SPACE_BEFORE)
    } else if spec_u32_err(vals, PARAGRAPH_SPACE_AFTER) is Some {
        spec_u32_err(vals, PARAGRAPH_SPACE_AFTER)
    } else if spec_u32_err(vals, PARAGRAPH_LINE_SPACING_EXACT) is Some {
        spec_u32_err(vals, PARAGRAPH_LINE_SPACING_EXACT)
    } else if spec_u8_err(vals, PARAGRAPH_ALIGNMENT) is Some {
        spec_u8_err(vals, PARAGRAPH_ALIGNMENT)
    } else if spec_u32_err(vals, LAYOUT_ALIGNMENT_IN_PARENT) is Some {
        spec_u32_err(vals, LAYOUT_ALIGNMENT_IN_PARENT)
    } else if spec_u32_err(vals, LAYOUT_ALIGNMENT_SELF) is Some {
        spec_u32_err(vals, LAYOUT_ALIGNMENT_SELF)
    } else if spec_note_tags_verdict(object) is Some {
        spec_note_tags_verdict(object)
    } else {
        None
    }
}

/// What interpreting a rich-text object must yield.
pub open spec fn spec_rich_text_data_ok(object: Object, data: Data) -> bool {
    let vals = object.props.properties.values@;
    &&& object.jc_id == JcId(PROPERTY_SET_RICH_TEXT_NODE)
    &&& (match spec_get(vals, RICH_EDIT_TEXT_UNICODE) {
        None => data.text is None,
        Some(v) => v matches PropertyValue::Vec(d) && (d@.len() % 2 == 0 && (
            data.text matches Some(t) && t@ == spec_utf16_units(d@))),
    })
    &&& data.text_run_formatting@ == (match spec_vec_ref(
        object, TEXT_RUN_FORMATTING) {
        Some(s) => s,
        None => Seq::<ExGuid>::empty(),
    })
    &&& (match spec_get(vals, TEXT_RUN_INDEX) {
        None => data.text_run_indices@.len() == 0,
        Some(v) => v matches PropertyValue::Vec(d) && (d@.len() % 4 == 0
            && data.text_run_indices@ == spec_u32_items(d@)),
    })
    &&& Some(data.paragraph_style) == spec_single_ref(object, PARAGRAPH_STYLE)
    &&& (match spec_get(vals, PARAGRAPH_SPACE_BEFORE) {
        None => data.paragraph_space_before == 0,
        Some(v) => v matches PropertyValue::U32(w)
            && data.paragraph_space_before == w,
    })
    &&& (match spec_get(vals, PARAGRAPH_SPACE_AFTER) {
        None => data.paragraph_space_after == 0,
        Some(v) => v matches PropertyValue::U32(w)
            && data.paragraph_space_after == w,
    })
    &&& (match spec_get(vals, PARAGRAPH_LINE_SPACING_EXACT) {
        None => data.paragraph_line_spacing_exact is None,
        Some(v) => v matches PropertyValue::U32(w)
            && data.paragraph_line_spacing_exact == Some(w),
    })
    &&& (match spec_get(vals, PARAGRAPH_ALIGNMENT) {
        None => data.paragraph_alignment == ParagraphAlignment::Unknown,
        Some(v) => v matches PropertyValue::U8(b) && data.paragraph_alignment
            == crate::paragraph_alignment::spec_paragraph_alignment(b),
    })
    &&& (match spec_get(vals, LAYOUT_ALIGNMENT_IN_PARENT) {
        None => data.layout_alignment_in_parent is None,
        Some(v) => v matches PropertyValue::U32(w) && data.layout_alignment_in_parent
            == crate::layout_alignment::spec_layout_alignment(w),
    })
    &&& (match spec_get(vals, LAYOUT_ALIGNMENT_SELF) {
        None => data.layout_alignment_self is None,
        Some(v) => v matches PropertyValue::U32(w) && data.layout_alignment_self
            == crate::layout_alignment::spec_layout_alignment(w),
    })
    &&& spec_note_tags_ok(object, data.note_tags@)
}

/// Interpret a rich-text object.  The paragraph style reference is
/// required; spacing defaults to a zero word and the alignment of an
/// object without one reads as unknown.
pub fn parse(object: &Object) -> (r: Result<Data, ErrorKind>)
    ensures
        ({
            let vals = object.props.properties.values@;
            match r {
                Ok(data) => spec_rich_text_verdict(*object) is None && spec_rich_text_data_ok(
                    *object, data),
                Err(e) => spec_rich_text_verdict(*object) == Some(e),
            }
        }),
{
    if object.id().0 != PROPERTY_SET_RICH_TEXT_NODE {
        return Err(ErrorKind::MalformedOneNoteFileData("unexpected object type"));
    }
    let props = &object.props.properties;
    let text = match simple::parse_string(RICH_EDIT_TEXT_UNICODE, props) {
        Ok(v) => v,
        Err(e) => { return Err(e); },
    };
    let text_run_formatting = match ObjectReference::parse_vec(TEXT_RUN_FORMATTING, object) {
        Ok(Some(v)) => v,
        Ok(None) => Vec::new(),
        Err(e) => { return Err(e); },
    };
    let text_run_indices = match simple::parse_u32_array(TEXT_RUN_INDEX, props) {
        Ok(Some(v)) => v,
        Ok(None) => Vec::new(),
        Err(e) => { return Err(e); },
    };
    let paragraph_style = match ObjectReference::parse(PARAGRAPH_STYLE, object) {
        Ok(Some(id)) => id,
        Ok(None) => {
            return Err(ErrorKind::MalformedOneNoteFileData("rich text has no paragraph style"));
        },
        Err(e) => { return Err(e); },
    };
    let paragraph_space_before = match simple::parse_u32(PARAGRAPH_SPACE_BEFORE, props) {
        Ok(Some(w)) => w,
        Ok(None) => 0,
        Err(e) => { return Err(e); },
    };
    let paragraph_space_after = match simple::parse_u32(PARAGRAPH_SPACE_AFTER, props) {
        Ok(Some(w)) => w,
        Ok(None) => 0,
        Err(e) => { return Err(e); },
    };
    let paragraph_line_spacing_exact = match simple::parse_u32(
        PARAGRAPH_LINE_SPACING_EXACT, props) {
        Ok(v) => v,
        Err(e) => { return Err(e); },
    };
    let paragraph_alignment = match ParagraphAlignment::parse(PARAGRAPH_ALIGNMENT, props) {
        Ok(Some(v)) => v,
        Ok(None) => ParagraphAlignment::Unknown,
        Err(e) => { return Err(e); },
    };
    let layout_alignment_in_parent = match LayoutAlignment::parse(
        LAYOUT_ALIGNMENT_IN_PARENT, props) {
        Ok(v) => v,
        Err(e) => { return Err(e); },
    };
    let layout_alignment_self = match LayoutAlignment::parse(LAYOUT_ALIGNMENT_SELF, props) {
        Ok(v) => v,
        Err(e) => { return Err(e); },
    };
    let note_tags = match NoteTagData::parse(object) {
        Ok(Some(v)) => v,
        Ok(None) => Vec::new(),
        Err(e) => { return Err(e); },
    };
    Ok(Data {
        text,
        text_run_formatting,
        text_run_indices,
        paragraph_style,
        paragraph_space_before,
        paragraph_space_after,
        paragraph_line_spacing_exact,
        paragraph_alignment,
        layout_alignment_in_parent,
        layout_alignment_self,
        note_tags,
    })
}

} // verus!
