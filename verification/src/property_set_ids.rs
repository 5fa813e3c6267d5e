use vstd::prelude::*;

verus! {

// The schema identifiers (JCIDs) of the property sets the interpreters
// understand.  An object is interpreted only when its own identifier
// equals the interpreter's; a mismatch is a structural error.
pub const PROPERTY_SET_TOC_CONTAINER: u32 = 0x00020001;
pub const PROPERTY_SET_SECTION_NODE: u32 = 0x00060007;
pub const PROPERTY_SET_PAGE_SERIES_NODE: u32 = 0x00060008;
pub const PROPERTY_SET_PAGE_NODE: u32 = 0x0006000b;
pub const PROPERTY_SET_OUTLINE_NODE: u32 = 0x0006000c;
pub const PROPERTY_SET_OUTLINE_ELEMENT_NODE: u32 = 0x0006000d;
pub const PROPERTY_SET_RICH_TEXT_NODE: u32 = 0x0006000e;
pub const PROPERTY_SET_TITLE_NODE: u32 = 0x0006002c;
pub const PROPERTY_SET_EMBEDDED_FILE_NODE: u32 = 0x00060035;
pub const PROPERTY_SET_PARAGRAPH_STYLE_OBJECT: u32 = 0x0012004d;
pub const PROPERTY_SET_PARAGRAPH_STYLE_OBJECT_FOR_TEXT: u32 = 0x0012004e;

} // verus!
