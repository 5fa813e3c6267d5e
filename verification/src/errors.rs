use vstd::prelude::*;

verus! {

/// The structured failures of the parser.
///
/// Parsing never recovers locally: the first structural error aborts the
/// whole parse and is surfaced to the caller together with a static
/// diagnostic message naming the offending construct.
#[derive(Debug, PartialEq, Eq)]
pub enum ErrorKind {
    /// The reader ran past the end of the input buffer.
    UnexpectedEof,
    /// A violation of the packaging / data-element layer.
    MalformedFssHttpBData(&'static str),
    /// A violation of the object / property layer.
    MalformedOneStoreData(&'static str),
    /// A violation at the property-set interpreter layer.
    MalformedOneNoteFileData(&'static str),
    /// A resolved reference has no target object in its object space.
    MalformedOneNoteData(&'static str),
}

impl ErrorKind {
    /// The diagnostic message carried by the error, empty for an EOF.
    pub fn message(&self) -> (r: &'static str)
        ensures
            r == self.spec_message(),
    {
        match self {
            ErrorKind::UnexpectedEof => "unexpected end of input",
            ErrorKind::MalformedFssHttpBData(m) => m,
            ErrorKind::MalformedOneStoreData(m) => m,
            ErrorKind::MalformedOneNoteFileData(m) => m,
            ErrorKind::MalformedOneNoteData(m) => m,
        }
    }

    pub open spec fn spec_message(self) -> &'static str {
        match self {
            ErrorKind::UnexpectedEof => "unexpected end of input",
            ErrorKind::MalformedFssHttpBData(m) => m,
            ErrorKind::MalformedOneStoreData(m) => m,
            ErrorKind::MalformedOneNoteFileData(m) => m,
            ErrorKind::MalformedOneNoteData(m) => m,
        }
    }
}

} // verus!
