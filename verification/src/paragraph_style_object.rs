use vstd::prelude::*;
use crate::charset::{spec_charset, spec_charset_err, Charset};
use crate::color_ref::{spec_color_ref, ColorRef};
use crate::errors::ErrorKind;
use crate::object::{JcId, Object};
use crate::paragraph_alignment::{spec_paragraph_alignment, ParagraphAlignment};
use crate::property_ids::{
    BOLD, CHARSET, FONT, FONT_COLOR, FONT_SIZE, HIGHLIGHT, HYPERLINK, ITALIC, LANGUAGE_ID,
    MATH_FORMATTING, NEXT_STYLE, PARAGRAPH_ALIGNMENT, PARAGRAPH_LINE_SPACING_EXACT,
    PARAGRAPH_SPACE_AFTER, PARAGRAPH_SPACE_BEFORE, PARAGRAPH_STYLE_ID, STRIKETHROUGH, SUBSCRIPT,
    SUPERSCRIPT, UNDERLINE,
};
use crate::property_set_ids::{
    PROPERTY_SET_PARAGRAPH_STYLE_OBJECT, PROPERTY_SET_PARAGRAPH_STYLE_OBJECT_FOR_TEXT,
};
use crate::prop_set::{spec_get, PropertyValue};
use crate::simple;
use crate::simple::{
    spec_bool_err, spec_string_err, spec_u16_err, spec_u32_err, spec_u8_err, spec_utf16_units,
};

verus! {

/// A paragraph-style object, as stored.  Spacing words are four-byte
/// floating-point bit patterns.
#[derive(Debug)]
pub struct Data {
    pub charset: Option<Charset>,
    pub bold: bool,
    pub italic: bool,
    pub underline: bool,
    pub strikethrough: bool,
    pub superscript: bool,
    pub subscript: bool,
    pub font: Option<Vec<u16>>,
    pub font_size: Option<u16>,
    pub font_color: Option<ColorRef>,
    pub highlight: Option<ColorRef>,
    pub next_style: Option<Vec<u16>>,
    pub style_id: Option<Vec<u16>>,
    pub paragraph_alignment: Option<ParagraphAlignment>,
    pub paragraph_space_before: Option<u32>,
    pub paragraph_space_after: Option<u32>,
    pub paragraph_line_spacing_exact: Option<u32>,
    pub language_code: Option<u32>,
    pub math_formatting: bool,
    pub hyperlink: bool,
}

/// Whether a boolean property reads as set: present and true.
pub open spec fn spec_flag(vals: Seq<(u32, PropertyValue)>, prop_type: u32) -> bool {
    spec_get(vals, prop_type) == Some(PropertyValue::Bool(true))
}

/// The rejection interpreting a paragraph-style object produces, if
/// any, in the order the checks run.  `parse` fails exactly on these.
pub open spec fn spec_style_verdict(object: Object) -> Option<ErrorKind> {
    let vals = object.props.properties.values@;
    if object.jc_id != JcId(PROPERTY_SET_PARAGRAPH_STYLE_OBJECT) && object.jc_id != JcId(
        PROPERTY_SET_PARAGRAPH_STYLE_OBJECT_FOR_TEXT) {
        Some(ErrorKind::MalformedOneNoteFileData("unexpected object type"))
    } else if spec_charset_err(vals, CHARSET) is Some {
        spec_charset_err(vals, CHARSET)
    } else if spec_bool_err(vals, BOLD) is Some {
        spec_bool_err(vals, BOLD)
    } else if spec_bool_err(vals, ITALIC) is Some {
        spec_bool_err(vals, ITALIC)
    } else if spec_bool_err(vals, UNDERLINE) is Some {
        spec_bool_err(vals, UNDERLINE)
    } else if spec_bool_err(vals, STRIKETHROUGH) is Some {
        spec_bool_err(vals, STRIKETHROUGH)
    } else if spec_bool_err(vals, SUPERSCRIPT) is Some {
        spec_bool_err(vals, SUPERSCRIPT)
    } else if spec_bool_err(vals, SUBSCRIPT) is Some {
        spec_bool_err(vals, SUBSCRIPT)
    } else if spec_string_err(vals, FONT) is Some {
        spec_string_err(vals, FONT)
    } else if spec_u16_err(vals, FONT_SIZE) is Some {
        spec_u16_err(vals, FONT_SIZE)
    } else if spec_u32_err(vals, FONT_COLOR) is Some {
        spec_u32_err(vals, FONT_COLOR)
    } else if spec_u32_err(vals, HIGHLIGHT) is Some {
        spec_u32_err(vals, HIGHLIGHT)
    } else if spec_string_err(vals, NEXT_STYLE) is Some {
        spec_string_err(vals, NEXT_STYLE)
    } else if spec_string_err(vals, PARAGRAPH_STYLE_ID) is Some {
        spec_string_err(vals, PARAGRAPH_STYLE_ID)
    } else if spec_u8_err(vals, PARAGRAPH_ALIGNMENT) is Some {
        spec_u8_err(vals, PARAGRAPH_ALIGNMENT)
    } else if spec_u32_err(vals, PARAGRAPH_SPACE_BEFORE) is Some {
        spec_u32_err(vals, PARAGRAPH_SPACE_BEFORE)
    } else if spec_u32_err(vals, PARAGRAPH_SPACE_AFTER) is Some {
        spec_u32_err(vals, PARAGRAPH_SPACE_AFTER)
    } else if spec_u32_err(vals, PARAGRAPH_LINE_SPACING_EXACT) is Some {
        spec_u32_err(vals, PARAGRAPH_LINE_SPACING_EXACT)
    } else if spec_u32_err(vals, LANGUAGE_ID) is Some {
        spec_u32_err(vals, LANGUAGE_ID)
    } else if spec_bool_err(vals, MATH_FORMATTING) is Some {
        spec_bool_err(vals, MATH_FORMATTING)
    } else if spec_bool_err(vals, HYPERLINK) is Some {
        spec_bool_err(vals, HYPERLINK)
    } else {
        None
    }
}

/// What interpreting a paragraph-style object must yield.
pub open spec fn spec_style_data_ok(object: Object, data: Data) -> bool {
    let vals = object.props.properties.values@;
    &&& (object.jc_id == JcId(PROPERTY_SET_PARAGRAPH_STYLE_OBJECT) || object.jc_id
        == JcId(PROPERTY_SET_PARAGRAPH_STYLE_OBJECT_FOR_TEXT))
    &&& (match spec_get(vals, CHARSET) {
        None => data.charset is None,
        Some(v) => v matches PropertyValue::U8(b)
            && data.charset == spec_charset(b),
    })
    &&& data.bold == spec_flag(vals, BOLD)
    &&& data.italic == spec_flag(vals, ITALIC)
    &&& data.underline == spec_flag(vals, UNDERLINE)
    &&& data.strikethrough == spec_flag(vals, STRIKETHROUGH)
    &&& data.superscript == spec_flag(vals, SUPERSCRIPT)
    &&& data.subscript == spec_flag(vals, SUBSCRIPT)
    &&& (match spec_get(vals, FONT) {
        None => data.font is None,
        Some(v) => v matches PropertyValue::Vec(d) && (d@.len() % 2 == 0 && (
            data.font matches Some(t) && t@ == spec_utf16_units(d@))),
    })
    &&& (match spec_get(vals, FONT_SIZE) {
        None => data.font_size is None,
        Some(v) => v matches PropertyValue::U16(w) && data.font_size == Some(w),
    })
    &&& (match spec_get(vals, FONT_COLOR) {
        None => data.font_color is None,
        Some(v) => v matches PropertyValue::U32(w)
            && data.font_color == Some(spec_color_ref(w)),
    })
    &&& (match spec_get(vals, HIGHLIGHT) {
        None => data.highlight is None,
        Some(v) => v matches PropertyValue::U32(w)
            && data.highlight == Some(spec_color_ref(w)),
    })
    &&& (match spec_get(vals, NEXT_STYLE) {
        None => data.next_style is None,
        Some(v) => v matches PropertyValue::Vec(d) && (d@.len() % 2 == 0 && (
            data.next_style matches Some(t) && t@ == spec_utf16_units(d@))),
    })
    &&& (match spec_get(vals, PARAGRAPH_STYLE_ID) {
        None => data.style_id is None,
        Some(v) => v matches PropertyValue::Vec(d) && (d@.len() % 2 == 0 && (
            data.style_id matches Some(t) && t@ == spec_utf16_units(d@))),
    })
    &&& (match spec_get(vals, PARAGRAPH_ALIGNMENT) {
        None => data.paragraph_alignment is None,
        Some(v) => v matches PropertyValue::U8(b) && data.paragraph_alignment
            == Some(spec_paragraph_alignment(b)),
    })
    &&& (match spec_get(vals, PARAGRAPH_SPACE_BEFORE) {
        None => data.paragraph_space_before is None,
        Some(v) => v matches PropertyValue::U32(w)
            && data.paragraph_space_before == Some(w),
    })
    &&& (match spec_get(vals, PARAGRAPH_SPACE_AFTER) {
        None => data.paragraph_space_after is None,
        Some(v) => v matches PropertyValue::U32(w)
            && data.paragraph_space_after == Some(w),
    })
    &&& (match spec_get(vals, PARAGRAPH_LINE_SPACING_EXACT) {
        None => data.paragraph_line_spacing_exact is None,
        Some(v) => v matches PropertyValue::U32(w)
            && data.paragraph_line_spacing_exact == Some(w),
    })
    &&& (match spec_get(vals, LANGUAGE_ID) {
        None => data.language_code is None,
        Some(v) => v matches PropertyValue::U32(w)
            && data.language_code == Some(w),
    })
    &&& data.math_formatting == spec_flag(vals, MATH_FORMATTING)
    &&& data.hyperlink == spec_flag(vals, HYPERLINK)
}

/// Interpret a paragraph-style object, under either of the two schema
/// identifiers such objects travel with.
pub fn parse(object: &Object) -> (r: Result<Data, ErrorKind>)
    ensures
        ({
            let vals = object.props.properties.values@;
            match r {
                Ok(data) => spec_style_verdict(*object) is None && spec_style_data_ok(
                    *object, data),
                Err(e) => spec_style_verdict(*object) == Some(e),
            }
        }),
{
    if object.id().0 != PROPERTY_SET_PARAGRAPH_STYLE_OBJECT && object.id().0
        != PROPERTY_SET_PARAGRAPH_STYLE_OBJECT_FOR_TEXT {
        return Err(ErrorKind::MalformedOneNoteFileData("unexpected object type"));
    }
    let props = &object.props.properties;
    let charset = match Charset::parse(CHARSET, props) {
        Ok(v) => v,
        Err(e) => { return Err(e); },
    };
    let bold = match simple::parse_bool(BOLD, props) {
        Ok(Some(b)) => b,
        Ok(None) => false,
        Err(e) => { return Err(e); },
    };
    let italic = match simple::parse_bool(ITALIC, props) {
        Ok(Some(b)) => b,
        Ok(None) => false,
        Err(e) => { return Err(e); },
    };
    let underline = match simple::parse_bool(UNDERLINE, props) {
        Ok(Some(b)) => b,
        Ok(None) => false,
        Err(e) => { return Err(e); },
    };
    let strikethrough = match simple::parse_bool(STRIKETHROUGH, props) {
        Ok(Some(b)) => b,
        Ok(None) => false,
        Err(e) => { return Err(e); },
    };
    let superscript = match simple::parse_bool(SUPERSCRIPT, props) {
        Ok(Some(b)) => b,
        Ok(None) => false,
        Err(e) => { return Err(e); },
    };
    let subscript = match simple::parse_bool(SUBSCRIPT, props) {
        Ok(Some(b)) => b,
        Ok(None) => false,
        Err(e) => { return Err(e); },
    };
    let font = match simple::parse_string(FONT, props) {
        Ok(v) => v,
        Err(e) => { return Err(e); },
    };
    let font_size = match simple::parse_u16(FONT_SIZE, props) {
        Ok(v) => v,
        Err(e) => { return Err(e); },
    };
    let font_color = match ColorRef::parse(FONT_COLOR, props) {
        Ok(v) => v,
        Err(e) => { return Err(e); },
    };
    let highlight = match ColorRef::parse(HIGHLIGHT, props) {
        Ok(v) => v,
        Err(e) => { return Err(e); },
    };
    let next_style = match simple::parse_string(NEXT_STYLE, props) {
        Ok(v) => v,
        Err(e) => { return Err(e); },
    };
    let style_id = match simple::parse_string(PARAGRAPH_STYLE_ID, props) {
        Ok(v) => v,
        Err(e) => { return Err(e); },
    };
    let paragraph_alignment = match ParagraphAlignment::parse(PARAGRAPH_ALIGNMENT, props) {
        Ok(v) => v,
        Err(e) => { return Err(e); },
    };
    let paragraph_space_before = match simple::parse_u32(PARAGRAPH_SPACE_BEFORE, props) {
        Ok(v) => v,
        Err(e) => { return Err(e); },
    };
    let paragraph_space_after = match simple::parse_u32(PARAGRAPH_SPACE_AFTER, props) {
        Ok(v) => v,
        Err(e) => { return Err(e); },
    };
    let paragraph_line_spacing_exact = match simple::parse_u32(
        PARAGRAPH_LINE_SPACING_EXACT, props) {
        Ok(v) => v,
        Err(e) => { return Err(e); },
    };
    let language_code = match simple::parse_u32(LANGUAGE_ID, props) {
        Ok(v) => v,
        Err(e) => { return Err(e); },
    };
    let math_formatting = match simple::parse_bool(MATH_FORMATTING, props) {
        Ok(Some(b)) => b,
        Ok(None) => false,
        Err(e) => { return Err(e); },
    };
    let hyperlink = match simple::parse_bool(HYPERLINK, props) {
        Ok(Some(b)) => b,
        Ok(None) => false,
        Err(e) => { return Err(e); },
    };
    Ok(Data {
        charset,
        bold,
        italic,
        underline,
        strikethrough,
        superscript,
        subscript,
        font,
        font_size,
        font_color,
        highlight,
        next_style,
        style_id,
        paragraph_alignment,
        paragraph_space_before,
        paragraph_space_after,
        paragraph_line_spacing_exact,
        language_code,
        math_formatting,
        hyperlink,
    })
}

} // verus!
