//! The parse error taxonomy.
//!
//! Every grammar violation, premature end of input, encoding failure
//! or attribute violation aborts the whole parse with one of these
//! values; there is no partial-tree recovery.

use vstd::prelude::*;

verus! {

/// Ghost view of a parse error.
pub ghost enum ParseErrorV {
    /// A start tag appeared where the grammar forbids that name.
    UnexpectedStartTag { got: Seq<char> },
    /// A closing tag did not match the tag it should have closed.
    UnexpectedEndTag { got: Seq<char>, expected: Seq<char> },
    /// A self-closing tag appeared at a level that forbids one.
    UnexpectedEmptyTag,
    /// A text run appeared at a level that forbids text.
    UnexpectedText,
    /// A non-structural event appeared inside an object body.
    UnexpectedEvent,
    /// The input ended before a required closing tag.
    UnexpectedEof,
    /// A `<script>` container tag carried an attribute.
    ScriptAttrForbidden,
    /// An empty `<script/>` tag carried no attribute at all.
    ScriptSrcMissing,
    /// The first attribute of an empty `<script/>` tag was not `src`.
    ScriptAttrNotSrc { got: Seq<char> },
    /// A top-level interface child was not a window.
    ClassNotWindow { got: Seq<char> },
    /// A name or value was not valid UTF-8.
    InvalidUtf8,
    /// The tokenizer could not read an event from the raw input.
    BadSyntax,
}

/// Why a parse failed; carries the offending and expected tag names
/// where the grammar knows them.
#[derive(Debug, Clone, PartialEq, Eq)]
pub enum ParseError {
    UnexpectedStartTag { got: String },
    UnexpectedEndTag { got: String, expected: String },
    UnexpectedEmptyTag,
    UnexpectedText,
    UnexpectedEvent,
    UnexpectedEof,
    ScriptAttrForbidden,
    ScriptSrcMissing,
    ScriptAttrNotSrc { got: String },
    ClassNotWindow { got: String },
    InvalidUtf8,
    BadSyntax,
}

impl DeepView for ParseError {
    type V = ParseErrorV;

    open spec fn deep_view(&self) -> ParseErrorV {
        match self {
            ParseError::UnexpectedStartTag { got } => ParseErrorV::UnexpectedStartTag {
                got: got.deep_view(),
            },
            ParseError::UnexpectedEndTag { got, expected } => ParseErrorV::UnexpectedEndTag {
                got: got.deep_view(),
                expected: expected.deep_view(),
            },
            ParseError::UnexpectedEmptyTag => ParseErrorV::UnexpectedEmptyTag,
            ParseError::UnexpectedText => ParseErrorV::UnexpectedText,
            ParseError::UnexpectedEvent => ParseErrorV::UnexpectedEvent,
            ParseError::UnexpectedEof => ParseErrorV::UnexpectedEof,
            ParseError::ScriptAttrForbidden => ParseErrorV::ScriptAttrForbidden,
            ParseError::ScriptSrcMissing => ParseErrorV::ScriptSrcMissing,
            ParseError::ScriptAttrNotSrc { got } => ParseErrorV::ScriptAttrNotSrc {
                got: got.deep_view(),
            },
            ParseError::ClassNotWindow { got } => ParseErrorV::ClassNotWindow {
                got: got.deep_view(),
            },
            ParseError::InvalidUtf8 => ParseErrorV::InvalidUtf8,
            ParseError::BadSyntax => ParseErrorV::BadSyntax,
        }
    }
}

} // verus!
