use vstd::prelude::*;

verus! {

// The 32-bit property identifiers the interpreters read.  The five bits
// above the 26-bit identifier part select the on-wire shape of the value;
// the full 32-bit word is the key, since shapes collide in the low bits.
pub const ACTION_ITEM_SCHEMA_VERSION: u32 = 0x0C003473;
pub const ACTION_ITEM_STATUS: u32 = 0x10003470;
pub const ACTION_ITEM_TYPE: u32 = 0x10003463;
pub const AUTHOR: u32 = 0x1C001D75;
pub const AUTHOR_MOST_RECENT: u32 = 0x20001D79;
pub const AUTHOR_ORIGINAL: u32 = 0x20001D78;
pub const BODY_TEXT_ALIGNMENT: u32 = 0x0C001C13;
pub const BOLD: u32 = 0x08001C04;
pub const CACHED_TITLE_STRING: u32 = 0x1C001CF3;
pub const CACHED_TITLE_STRING_FROM_PAGE: u32 = 0x1C001D3C;
pub const CANNOT_BE_SELECTED: u32 = 0x08001CB2;
pub const CHARSET: u32 = 0x0C001D01;
pub const CHILD_GRAPH_SPACE_ELEMENT_NODES: u32 = 0x2C001D63;
pub const COLUMN_COUNT: u32 = 0x14001D58;
pub const CONFLICTING_USER_NAME: u32 = 0x1C001D9E;
pub const CONTENT_CHILD_NODES: u32 = 0x24001C1F;
pub const CREATION_TIME_STAMP: u32 = 0x14001D09;
pub const DELETABLE: u32 = 0x08001D0C;
pub const DESCENDANTS_CANNOT_BE_MOVED: u32 = 0x08001CF9;
pub const DISPLAYED_PAGE_NUMBER: u32 = 0x14003480;
pub const EDIT_ROOT_RTL: u32 = 0x08001C92;
pub const ELEMENT_CHILD_NODES: u32 = 0x24001C20;
pub const EMBEDDED_FILE_CONTAINER: u32 = 0x20001D9B;
pub const EMBEDDED_FILE_NAME: u32 = 0x1C001D9C;
pub const ENABLE_HISTORY: u32 = 0x08001E1E;
pub const ENFORCE_OUTLINE_STRUCTURE: u32 = 0x08001C91;
pub const FILE_ANCESTOR_IDENTITY_GUID: u32 = 0x1C001D95;
pub const FILE_IDENTITY_GUID: u32 = 0x1C001D94;
pub const FILE_LAST_CODE_VERSION_THAT_WROTE_TO_IT: u32 = 0x14001D99;
pub const FILE_NAME_CRC: u32 = 0x14001D93;
pub const FONT: u32 = 0x1C001C0A;
pub const FONT_COLOR: u32 = 0x14001C0C;
pub const FONT_SIZE: u32 = 0x10001C0B;
pub const HAS_VERSION_PAGES: u32 = 0x08003462;
pub const HIDDEN: u32 = 0x08001E16;
pub const HIGHLIGHT: u32 = 0x14001C0D;
pub const HYPERLINK: u32 = 0x08001E14;
pub const HYPERLINK_PROTECTED: u32 = 0x08001E19;
pub const I_RECORD_MEDIA: u32 = 0x14001D24;
pub const IMAGE_ALT_TEXT: u32 = 0x1C001E58;
pub const IMAGE_FILENAME: u32 = 0x1C001DD7;
pub const IMAGE_UPLOAD_STATE: u32 = 0x140034CB;
pub const IS_BACKGROUND: u32 = 0x08001D13;
pub const IS_BOILER_TEXT: u32 = 0x08001C88;
pub const IS_CONFLICT_OBJECT_FOR_RENDER: u32 = 0x08001D96;
pub const IS_CONFLICT_OBJECT_FOR_SELECTION: u32 = 0x08001DDB;
pub const IS_CONFLICT_PAGE: u32 = 0x08001D7C;
pub const IS_DELETED_GRAPH_SPACE_CONTENT: u32 = 0x00001DE9;
pub const IS_LAYOUT_SIZE_SET_BY_USER: u32 = 0x08001CBD;
pub const IS_READ_ONLY: u32 = 0x08001CDE;
pub const IS_TITLE_DATE: u32 = 0x08001CB5;
pub const IS_TITLE_TEXT: u32 = 0x08001CB4;
pub const IS_TITLE_TIME: u32 = 0x08001C87;
pub const ITALIC: u32 = 0x08001C05;
pub const LANGUAGE_ID: u32 = 0x14001C3B;
pub const LAST_MODIFIED_TIME: u32 = 0x14001D7A;
pub const LAST_MODIFIED_TIME_STAMP: u32 = 0x18001D77;
pub const LAYOUT_ALIGNMENT_IN_PARENT: u32 = 0x14001C3E;
pub const LAYOUT_ALIGNMENT_SELF: u32 = 0x14001C84;
pub const LAYOUT_COLLISION_PRIORITY: u32 = 0x14001CF1;
pub const LAYOUT_MAX_HEIGHT: u32 = 0x14001C1C;
pub const LAYOUT_MAX_WIDTH: u32 = 0x14001C1B;
pub const LAYOUT_MINIMUM_OUTLINE_WIDTH: u32 = 0x14001CEC;
pub const LAYOUT_OUTLINE_RESERVED_WIDTH: u32 = 0x14001CDB;
pub const LAYOUT_RESOLVE_CHILD_COLLISIONS: u32 = 0x08001CDC;
pub const LAYOUT_TIGHT_ALIGNMENT: u32 = 0x08001CFF;
pub const LAYOUT_TIGHT_LAYOUT: u32 = 0x08001C00;
pub const LIST_FONT: u32 = 0x1C001C52;
pub const LIST_MSAA_INDEX: u32 = 0x10001D0E;
pub const LIST_NODES: u32 = 0x24001C26;
pub const LIST_RESTART: u32 = 0x14001CB7;
pub const LIST_SPACING_MU: u32 = 0x14001CCB;
pub const MATH_FORMATTING: u32 = 0x08003401;
pub const META_DATA_OBJECTS_ABOVE_GRAPH_SPACE: u32 = 0x24003442;
pub const NEXT_STYLE: u32 = 0x1C00348A;
pub const NOTE_TAG_COMPLETED: u32 = 0x1400346F;
pub const NOTE_TAG_CREATED: u32 = 0x1400346E;
pub const NOTE_TAG_DEFINITION_OID: u32 = 0x20003488;
pub const NOTE_TAG_HIGHLIGHT_COLOR: u32 = 0x14003465;
pub const NOTE_TAG_LABEL: u32 = 0x1C003468;
pub const NOTE_TAG_PROPERTY_STATUS: u32 = 0x14003467;
pub const NOTE_TAG_SHAPE: u32 = 0x10003464;
pub const NOTE_TAG_STATES: u32 = 0x04003489;
pub const NOTE_TAG_TEXT_COLOR: u32 = 0x14003466;
pub const NOTEBOOK_MANAGEMENT_ENTITY_GUID: u32 = 0x1C001C30;
pub const NUMBER_LIST_FORMAT: u32 = 0x1C001C1A;
pub const OFFSET_FROM_PARENT_HORIZ: u32 = 0x14001C14;
pub const OFFSET_FROM_PARENT_VERT: u32 = 0x14001C15;
pub const OUTLINE_ELEMENT_CHILD_LEVEL: u32 = 0x0C001C03;
pub const OUTLINE_ELEMENT_RTL: u32 = 0x08001C34;
pub const PAGE_HEIGHT: u32 = 0x14001C02;
pub const PAGE_LEVEL: u32 = 0x14001DFF;
pub const PAGE_MARGIN_BOTTOM: u32 = 0x14001C4D;
pub const PAGE_MARGIN_LEFT: u32 = 0x14001C4E;
pub const PAGE_MARGIN_ORIGIN_X: u32 = 0x14001D0F;
pub const PAGE_MARGIN_ORIGIN_Y: u32 = 0x14001D10;
pub const PAGE_MARGIN_RIGHT: u32 = 0x14001C4F;
pub const PAGE_MARGIN_TOP: u32 = 0x14001C4C;
pub const PAGE_SIZE: u32 = 0x14001C8B;
pub const PAGE_WIDTH: u32 = 0x14001C01;
pub const PARAGRAPH_ALIGNMENT: u32 = 0x0C003477;
pub const PARAGRAPH_LINE_SPACING_EXACT: u32 = 0x14003430;
pub const PARAGRAPH_SPACE_AFTER: u32 = 0x1400342F;
pub const PARAGRAPH_SPACE_BEFORE: u32 = 0x1400342E;
pub const PARAGRAPH_STYLE: u32 = 0x2000342C;
pub const PARAGRAPH_STYLE_ID: u32 = 0x1C00345A;
pub const PICTURE_CONTAINER: u32 = 0x20001C3F;
pub const PICTURE_HEIGHT: u32 = 0x140034CE;
pub const PICTURE_WIDTH: u32 = 0x140034CD;
pub const PORTRAIT_PAGE: u32 = 0x08001C8E;
pub const READING_ORDER_RTL: u32 = 0x08003476;
pub const RG_OUTLINE_INDENT_DISTANCE: u32 = 0x1C001C12;
pub const RICH_EDIT_TEXT_LANG_ID: u32 = 0x10001CFE;
pub const RICH_EDIT_TEXT_UNICODE: u32 = 0x1C001C22;
pub const ROW_COUNT: u32 = 0x14001D57;
pub const SCHEMA_REVISION_IN_ORDER_TO_READ: u32 = 0x14001D82;
pub const SCHEMA_REVISION_IN_ORDER_TO_WRITE: u32 = 0x1400348B;
pub const SECTION_DISPLAY_NAME: u32 = 0x1C00349B;
pub const SOURCE_FILEPATH: u32 = 0x1C001D9D;
pub const STRIKETHROUGH: u32 = 0x08001C07;
pub const STRUCTURE_ELEMENT_CHILD_NODES: u32 = 0x24001D5F;
pub const SUBSCRIPT: u32 = 0x08001C09;
pub const SUPERSCRIPT: u32 = 0x08001C08;
pub const TABLE_BORDERS_VISIBLE: u32 = 0x08001D5E;
pub const TABLE_COLUMN_WIDTHS: u32 = 0x1C001D66;
pub const TABLE_COLUMNS_LOCKED: u32 = 0x1C001D7D;
pub const TASK_TAG_DUE_DAT: u32 = 0x1400346B;
pub const TEXT_EXTENDED_ASCII: u32 = 0x1C003498;
pub const TEXT_RUN_DATA: u32 = 0x40003499;
pub const TEXT_RUN_DATA_OBJECT: u32 = 0x24003458;
pub const TEXT_RUN_FORMATTING: u32 = 0x24001E13;
pub const TEXT_RUN_INDEX: u32 = 0x1C001E12;
pub const TEXT_RUN_IS_EMBEDDED_OBJECT: u32 = 0x08001E22;
pub const TOPOLOGY_CREATION_TIME_STAMP: u32 = 0x18001C65;
pub const UNDERLINE: u32 = 0x08001C06;
pub const UNDERLINE_TYPE: u32 = 0x0C001E15;
pub const VERSION_HISTORY_GRAPH_SPACE_CONTEXT_NODES: u32 = 0x3400347B;
pub const WEB_PICTURE_CONTAINER14: u32 = 0x200034C8;
pub const WZ_HYPERLINK_URL: u32 = 0x1C001E20;

// The identifiers below are not in the published documentation of the
// format; they were discovered empirically and are kept on purpose.
pub const TOC_CHILDREN: u32 = 0x24001CF6;
pub const FOLDER_CHILD_FILENAME: u32 = 0x1C001D6B;
pub const NOTEBOOK_ELEMENT_ORDERING_ID: u32 = 0x14001CB9;
pub const PICTURE_FILE_EXTENSION: u32 = 0x24003424;
pub const NOTE_TAGS: u32 = 0x40003489;
pub const NOTE_TAG: u32 = 0x44000811;
pub const SECTION_COLOR: u32 = 0x14001CBE;
pub const CELL_BACKGROUND_COLOR: u32 = 0x14001E26;
pub const INK_BIAS: u32 = 0x0C00341C;
pub const INK_DATA: u32 = 0x20003415;
pub const INK_DIMENSIONS: u32 = 0x1C00340A;
pub const INK_PATH: u32 = 0x1C00340B;
pub const INK_STROKE_PROPERTIES: u32 = 0x20003409;
pub const INK_STROKES: u32 = 0x24003416;
pub const INK_ANTIALISED: u32 = 0x8000340E;
pub const INK_FIT_TO_CURVE: u32 = 0x80003410;
pub const INK_IGNORE_PRESSURE: u32 = 0x08003411;
pub const INK_PEN_TIP: u32 = 0x0C003412;
pub const INK_RASTER_OPERATION: u32 = 0x0C003413;
pub const INK_TRANSPARENCY: u32 = 0x0C003414;
pub const INK_HEIGHT: u32 = 0x1400340C;
pub const INK_WIDTH: u32 = 0x1400340D;
pub const INK_COLOR: u32 = 0x1400340F;
pub const INK_SCALING_X: u32 = 0x14001C46;
pub const INK_SCALING_Y: u32 = 0x14001C47;
pub const INK_BOUNDING_BOX: u32 = 0x1C003418;
pub const EMBEDDED_OBJECT_TYPE: u32 = 0x14003457;
pub const EMBEDDED_INK_START_X: u32 = 0x1400349E;
pub const EMBEDDED_INK_START_Y: u32 = 0x1400349F;
pub const EMBEDDED_INK_WIDTH: u32 = 0x140034A0;
pub const EMBEDDED_INK_HEIGHT: u32 = 0x140034A1;
pub const EMBEDDED_INK_OFFSET_HORIZ: u32 = 0x140034A2;
pub const EMBEDDED_INK_OFFSET_VERT: u32 = 0x140034A3;
pub const EMBEDDED_INK_SPACE_WIDTH: u32 = 0x14001C27;
pub const EMBEDDED_INK_SPACE_HEIGHT: u32 = 0x14001C28;
pub const IMAGE_EMBED_TYPE: u32 = 0x140035F2;
pub const IMAGE_EMBEDDED_URL: u32 = 0x1C0035F3;

} // verus!
