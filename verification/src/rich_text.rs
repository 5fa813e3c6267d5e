use vstd::prelude::*;
use crate::charset::Charset;
use crate::color_ref::ColorRef;
use crate::errors::ErrorKind;
use crate::exguid::ExGuid;
use crate::layout_alignment::LayoutAlignment;
use crate::note_tag_container::Data as NoteTagData;
use crate::object_space::{spec_space_get, ObjectSpace};
use crate::paragraph_alignment::ParagraphAlignment;
use crate::object_reference::{spec_single_ref, spec_vec_ref};
use crate::paragraph_style_object::{spec_style_data_ok, spec_style_verdict, Data as StyleData};
use crate::property_ids::{PARAGRAPH_STYLE, TEXT_RUN_FORMATTING};
use crate::rich_text_node::{spec_rich_text_data_ok, spec_rich_text_verdict, Data as NodeData};
use crate::rich_text_node;
use crate::paragraph_style_object;

verus! {

/// A rich text paragraph: the paragraph text with a list of text runs.
/// The run indices say where each run ends; the last run always ends at
/// the end of the text, and a paragraph without indices carries one
/// formatting for the whole text.  Text is a sequence of UTF-16 code
/// units; spacing words are four-byte floating-point bit patterns.
#[derive(Debug)]
pub struct RichText {
    pub text: Vec<u16>,
    pub text_run_formatting: Vec<ParagraphStyling>,
    pub text_run_indices: Vec<u32>,
    pub paragraph_style: ParagraphStyling,
    pub paragraph_space_before: u32,
    pub paragraph_space_after: u32,
    pub paragraph_line_spacing_exact: Option<u32>,
    pub paragraph_alignment: ParagraphAlignment,
    pub layout_alignment_in_parent: Option<LayoutAlignment>,
    pub layout_alignment_self: Option<LayoutAlignment>,
    pub note_tags: Vec<NoteTagData>,
}

/// A paragraph's style, resolved from its style object.
#[derive(Debug)]
pub struct ParagraphStyling {
    pub charset: Option<Charset>,
    pub bold: bool,
    pub italic: bool,
    pub underline: bool,
    pub strikethrough: bool,
    pub superscript: bool,
    pub subscript: bool,
    pub font: Option<Vec<u16>>,
    pub font_size: Option<u16>,
    pub font_color: Option<ColorRef>,
    pub highlight: Option<ColorRef>,
    pub next_style: Option<Vec<u16>>,
    pub style_id: Option<Vec<u16>>,
    pub paragraph_alignment: Option<ParagraphAlignment>,
    pub paragraph_space_before: Option<u32>,
    pub paragraph_space_after: Option<u32>,
    pub paragraph_line_spacing_exact: Option<u32>,
    pub language_code: Option<u32>,
    pub math_formatting: bool,
    pub hyperlink: bool,
}

/// The styling a style object's record carries, field for field.
pub open spec fn spec_styling_of(d: StyleData) -> ParagraphStyling {
    ParagraphStyling {
        charset: d.charset,
        bold: d.bold,
        italic: d.italic,
        underline: d.underline,
        strikethrough: d.strikethrough,
        superscript: d.superscript,
        subscript: d.subscript,
        font: d.font,
        font_size: d.font_size,
        font_color: d.font_color,
        highlight: d.highlight,
        next_style: d.next_style,
        style_id: d.style_id,
        paragraph_alignment: d.paragraph_alignment,
        paragraph_space_before: d.paragraph_space_before,
        paragraph_space_after: d.paragraph_space_after,
        paragraph_line_spacing_exact: d.paragraph_line_spacing_exact,
        language_code: d.language_code,
        math_formatting: d.math_formatting,
        hyperlink: d.hyperlink,
    }
}

/// Whether `st` is the styling that the object space yields for the
/// style object named `id`.
pub open spec fn spec_styling_resolved(space: ObjectSpace, id: ExGuid, st: ParagraphStyling)
    -> bool {
    match spec_space_get(space.objects@, id) {
        None => false,
        Some(o) => exists|d: StyleData| spec_style_data_ok(o, d) && st == spec_styling_of(d),
    }
}

/// The rejection resolving the style object named `id` produces, if
/// any: a missing object, or the style interpreter's own rejection.
pub open spec fn spec_style_lookup_verdict(space: ObjectSpace, id: ExGuid) -> Option<ErrorKind> {
    match spec_space_get(space.objects@, id) {
        None => Some(ErrorKind::MalformedOneNoteData("paragraph styling is missing")),
        Some(o) => spec_style_verdict(o),
    }
}

/// The first rejection resolving the run styles named by `ids`, from
/// position `k` on.
pub open spec fn spec_run_styles_verdict_from(
    space: ObjectSpace,
    ids: Seq<ExGuid>,
    k: int,
) -> Option<ErrorKind>
    decreases ids.len() - k,
{
    if k < 0 || k >= ids.len() {
        None
    } else if spec_style_lookup_verdict(space, ids[k]) is Some {
        spec_style_lookup_verdict(space, ids[k])
    } else {
        spec_run_styles_verdict_from(space, ids, k + 1)
    }
}

/// The rejection resolving the rich-text paragraph named `content_id`
/// produces, if any: a missing content object, the rich-text
/// interpreter's rejection, the base style's, or the first run
/// style's.  `parse_rich_text` fails exactly on these.
pub open spec fn spec_rich_text_resolution_verdict(
    space: ObjectSpace,
    content_id: ExGuid,
) -> Option<ErrorKind> {
    match spec_space_get(space.objects@, content_id) {
        None => Some(ErrorKind::MalformedOneNoteData("rich text content is missing")),
        Some(o) => if spec_rich_text_verdict(o) is Some {
            spec_rich_text_verdict(o)
        } else {
            let run_ids = match spec_vec_ref(o, TEXT_RUN_FORMATTING) {
                Some(ids) => ids,
                None => Seq::<ExGuid>::empty(),
            };
            match spec_single_ref(o, PARAGRAPH_STYLE) {
                Some(sid) => if spec_style_lookup_verdict(space, sid) is Some {
                    spec_style_lookup_verdict(space, sid)
                } else {
                    spec_run_styles_verdict_from(space, run_ids, 0)
                },
                None => None,
            }
        },
    }
}

/// Resolve one paragraph styling through the object space.  The
/// resolution fails exactly when `spec_style_lookup_verdict` names a
/// rejection, with that error.
pub fn parse_style(style_id: ExGuid, space: &ObjectSpace) -> (r: Result<
    ParagraphStyling,
    ErrorKind,
>)
    ensures
        match r {
            Ok(st) => spec_style_lookup_verdict(*space, style_id) is None
                && spec_styling_resolved(*space, style_id, st),
            Err(e) => spec_style_lookup_verdict(*space, style_id) == Some(e),
        },
{
    let object = match space.get_object(style_id) {
        Some(o) => o,
        None => {
            return Err(ErrorKind::MalformedOneNoteData("paragraph styling is missing"));
        },
    };
    let data = match paragraph_style_object::parse(object) {
        Ok(v) => v,
        Err(e) => { return Err(e); },
    };
    let ghost gdata = data;
    let styling = ParagraphStyling {
        charset: data.charset,
        bold: data.bold,
        italic: data.italic,
        underline: data.underline,
        strikethrough: data.strikethrough,
        superscript: data.superscript,
        subscript: data.subscript,
        font: data.font,
        font_size: data.font_size,
        font_color: data.font_color,
        highlight: data.highlight,
        next_style: data.next_style,
        style_id: data.style_id,
        paragraph_alignment: data.paragraph_alignment,
        paragraph_space_before: data.paragraph_space_before,
        paragraph_space_after: data.paragraph_space_after,
        paragraph_line_spacing_exact: data.paragraph_line_spacing_exact,
        language_code: data.language_code,
        math_formatting: data.math_formatting,
        hyperlink: data.hyperlink,
    };
    proof {
        assert(spec_style_data_ok(*object, gdata) && styling == spec_styling_of(gdata));
    }
    Ok(styling)
}

/// Resolve one rich-text paragraph through the object space: interpret
/// the rich-text object, then resolve its base style and the style of
/// every text run.
pub fn parse_rich_text(content_id: ExGuid, space: &ObjectSpace) -> (r: Result<
    RichText,
    ErrorKind,
>)
    ensures
        (r matches Err(e) ==> spec_rich_text_resolution_verdict(*space, content_id) == Some(e)),
        (r is Ok ==> spec_rich_text_resolution_verdict(*space, content_id) is None),
        match spec_space_get(space.objects@, content_id) {
            None => r is Err,
            Some(o) => match r {
                Ok(rt) => exists|d: NodeData|
                    {
                        &&& #[trigger] spec_rich_text_data_ok(o, d)
                        &&& rt.text@ == (match d.text {
                            Some(t) => t@,
                            None => Seq::<u16>::empty(),
                        })
                        &&& rt.text_run_indices@ == d.text_run_indices@
                        &&& spec_styling_resolved(*space, d.paragraph_style, rt.paragraph_style)
                        &&& rt.text_run_formatting@.len() == d.text_run_formatting@.len()
                        &&& (forall|k: int| 0 <= k < d.text_run_formatting@.len()
                            ==> spec_styling_resolved(*space, d.text_run_formatting@[k],
                                #[trigger] rt.text_run_formatting@[k]))
                        &&& rt.paragraph_space_before == d.paragraph_space_before
                        &&& rt.paragraph_space_after == d.paragraph_space_after
                        &&& rt.paragraph_line_spacing_exact == d.paragraph_line_spacing_exact
                        &&& rt.paragraph_alignment == d.paragraph_alignment
                        &&& rt.layout_alignment_in_parent == d.layout_alignment_in_parent
                        &&& rt.layout_alignment_self == d.layout_alignment_self
                        &&& rt.note_tags@ == d.note_tags@
                    },
                Err(e) => true,
            },
        },
{
    let object = match space.get_object(content_id) {
        Some(o) => o,
        None => {
            return Err(ErrorKind::MalformedOneNoteData("rich text content is missing"));
        },
    };
    let data = match rich_text_node::parse(object) {
        Ok(v) => v,
        Err(e) => { return Err(e); },
    };
    let ghost gdata = data;

    let style = match parse_style(data.paragraph_style, space) {
        Ok(v) => v,
        Err(e) => {
            proof {
                assert(spec_space_get(space.objects@, content_id) == Some(*object));
            }
            return Err(e);
        },
    };

    let mut styles: Vec<ParagraphStyling> = Vec::new();
    let n = data.text_run_formatting.len();
    let mut k: usize = 0;
    while k < n
        invariant
            spec_space_get(space.objects@, content_id) == Some(*object),
            spec_rich_text_verdict(*object) is None,
            spec_single_ref(*object, PARAGRAPH_STYLE) == Some(gdata.paragraph_style),
            spec_style_lookup_verdict(*space, gdata.paragraph_style) is None,
            gdata.text_run_formatting@ == (match spec_vec_ref(*object, TEXT_RUN_FORMATTING) {
                Some(ids) => ids,
                None => Seq::<ExGuid>::empty(),
            }),
            spec_run_styles_verdict_from(*space, gdata.text_run_formatting@, 0)
                == spec_run_styles_verdict_from(*space, gdata.text_run_formatting@, k as int),
            k <= n,
            n == gdata.text_run_formatting@.len(),
            data.text_run_formatting@ == gdata.text_run_formatting@,
            styles@.len() == k,
            forall|j: int| 0 <= j < k ==> spec_styling_resolved(
                *space, gdata.text_run_formatting@[j], #[trigger] styles@[j]),
        decreases n - k,
    {
        let st = match parse_style(data.text_run_formatting[k], space) {
            Ok(v) => v,
            Err(e) => { return Err(e); },
        };
        styles.push(st);
        k = k + 1;
    }

    let text = match data.text {
        Some(t) => t,
        None => Vec::new(),
    };

    let rt = RichText {
        text,
        text_run_formatting: styles,
        text_run_indices: data.text_run_indices,
        paragraph_style: style,
        paragraph_space_before: data.paragraph_space_before,
        paragraph_space_after: data.paragraph_space_after,
        paragraph_line_spacing_exact: data.paragraph_line_spacing_exact,
        paragraph_alignment: data.paragraph_alignment,
        layout_alignment_in_parent: data.layout_alignment_in_parent,
        layout_alignment_self: data.layout_alignment_self,
        note_tags: data.note_tags,
    };
    proof {
        assert(spec_rich_text_data_ok(*object, gdata));
        assert(rt.text@ == (match gdata.text {
            Some(t) => t@,
            None => Seq::<u16>::empty(),
        }));
        assert(rt.text_run_indices@ == gdata.text_run_indices@);
        assert(spec_styling_resolved(*space, gdata.paragraph_style, rt.paragraph_style));
        assert(rt.text_run_formatting@.len() == gdata.text_run_formatting@.len());
        assert(forall|j: int| 0 <= j < gdata.text_run_formatting@.len()
            ==> spec_styling_resolved(*space, gdata.text_run_formatting@[j],
                #[trigger] rt.text_run_formatting@[j]));
        assert(rt.note_tags@ == gdata.note_tags@);
    }
    Ok(rt)
}

impl RichText {
    /// The paragraph text content, as UTF-16 code units.
    pub fn text(&self) -> (r: &Vec<u16>)
        ensures
            r@ == self.text@,
    {
        &self.text
    }

    /// The formatting of each text run.
    pub fn text_run_formatting(&self) -> (r: &Vec<ParagraphStyling>)
        ensures
            r == &self.text_run_formatting,
    {
        &self.text_run_formatting
    }

    /// The character positions where the text runs end.
    pub fn text_run_indices(&self) -> (r: &Vec<u32>)
        ensures
            r@ == self.text_run_indices@,
    {
        &self.text_run_indices
    }

    /// The base paragraph style.
    pub fn paragraph_style(&self) -> (r: &ParagraphStyling)
        ensures
            r == &self.paragraph_style,
    {
        &self.paragraph_style
    }

    /// The paragraph's top margin, as a floating-point bit pattern.
    pub fn paragraph_space_before(&self) -> (r: u32)
        ensures
            r == self.paragraph_space_before,
    {
        self.paragraph_space_before
    }

    /// The paragraph's bottom margin, as a floating-point bit pattern.
    pub fn paragraph_space_after(&self) -> (r: u32)
        ensures
            r == self.paragraph_space_after,
    {
        self.paragraph_space_after
    }

    /// The paragraph's exact line spacing, as a floating-point bit
    /// pattern.
    pub fn paragraph_line_spacing_exact(&self) -> (r: Option<u32>)
        ensures
            r == self.paragraph_line_spacing_exact,
    {
        self.paragraph_line_spacing_exact
    }

    /// The paragraph's text alignment.
    pub fn paragraph_alignment(&self) -> (r: ParagraphAlignment)
        ensures
            r == self.paragraph_alignment,
    {
        self.paragraph_alignment
    }

    /// The paragraph's alignment relative to the containing element.
    pub fn layout_alignment_in_parent(&self) -> (r: Option<LayoutAlignment>)
        ensures
            r == self.layout_alignment_in_parent,
    {
        self.layout_alignment_in_parent
    }

    /// The paragraph's own alignment.
    pub fn layout_alignment_self(&self) -> (r: Option<LayoutAlignment>)
        ensures
            r == self.layout_alignment_self,
    {
        self.layout_alignment_self
    }

    /// Note tags for this paragraph.
    pub fn note_tags(&self) -> (r: &Vec<NoteTagData>)
        ensures
            r == &self.note_tags,
    {
        &self.note_tags
    }
}

impl ParagraphStyling {
    /// The text's charset.
    pub fn charset(&self) -> (r: Option<Charset>)
        ensures
            r == self.charset,
    {
        self.charset
    }

    /// Whether the text is bold.
    pub fn bold(&self) -> (r: bool)
        ensures
            r == self.bold,
    {
        self.bold
    }

    /// Whether the text is italic.
    pub fn italic(&self) -> (r: bool)
        ensures
            r == self.italic,
    {
        self.italic
    }

    /// Whether the text is underlined.
    pub fn underline(&self) -> (r: bool)
        ensures
            r == self.underline,
    {
        self.underline
    }

    /// Whether the text has strike-through formatting.
    pub fn strikethrough(&self) -> (r: bool)
        ensures
            r == self.strikethrough,
    {
        self.strikethrough
    }

    /// Whether the text is formatted as superscript.
    pub fn superscript(&self) -> (r: bool)
        ensures
            r == self.superscript,
    {
        self.superscript
    }

    /// Whether the text is formatted as subscript.
    pub fn subscript(&self) -> (r: bool)
        ensures
            r == self.subscript,
    {
        self.subscript
    }

    /// The font for this text, as UTF-16 code units.
    pub fn font(&self) -> (r: &Option<Vec<u16>>)
        ensures
            r == &self.font,
    {
        &self.font
    }

    /// The font size for this text in half-point increments.
    pub fn font_size(&self) -> (r: Option<u16>)
        ensures
            r == self.font_size,
    {
        self.font_size
    }

    /// The font color for this text.
    pub fn font_color(&self) -> (r: Option<ColorRef>)
        ensures
            r == self.font_color,
    {
        self.font_color
    }

    /// The background color for this text.
    pub fn highlight(&self) -> (r: Option<ColorRef>)
        ensures
            r == self.highlight,
    {
        self.highlight
    }

    /// The name of the default style for the next paragraph.
    pub fn next_style(&self) -> (r: &Option<Vec<u16>>)
        ensures
            r == &self.next_style,
    {
        &self.next_style
    }

    /// The paragraph style's name.
    pub fn style_id(&self) -> (r: &Option<Vec<u16>>)
        ensures
            r == &self.style_id,
    {
        &self.style_id
    }

    /// The paragraph alignment.
    pub fn paragraph_alignment(&self) -> (r: Option<ParagraphAlignment>)
        ensures
            r == self.paragraph_alignment,
    {
        self.paragraph_alignment
    }

    /// The paragraph's top margin, as a floating-point bit pattern.
    pub fn paragraph_space_before(&self) -> (r: Option<u32>)
        ensures
            r == self.paragraph_space_before,
    {
        self.paragraph_space_before
    }

    /// The paragraph's bottom margin, as a floating-point bit pattern.
    pub fn paragraph_space_after(&self) -> (r: Option<u32>)
        ensures
            r == self.paragraph_space_after,
    {
        self.paragraph_space_after
    }

    /// The paragraph's exact line spacing, as a floating-point bit
    /// pattern.
    pub fn paragraph_line_spacing_exact(&self) -> (r: Option<u32>)
        ensures
            r == self.paragraph_line_spacing_exact,
    {
        self.paragraph_line_spacing_exact
    }

    /// The language code for the text.
    pub fn language_code(&self) -> (r: Option<u32>)
        ensures
            r == self.language_code,
    {
        self.language_code
    }

    /// Whether the text is formatted as a math expression.
    pub fn math_formatting(&self) -> (r: bool)
        ensures
            r == self.math_formatting,
    {
        self.math_formatting
    }

    /// Whether the text is the display text for a hyperlink.
    pub fn hyperlink(&self) -> (r: bool)
        ensures
            r == self.hyperlink,
    {
        self.hyperlink
    }
}

} // verus!
