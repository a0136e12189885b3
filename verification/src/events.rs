//! Structural markup events.
//!
//! The parser consumes a sequence of these events.  They are produced
//! by the streaming event source (see `xmlio`), which trims text runs
//! and decodes names and values to UTF-8 before they get here; the
//! grammar itself never looks below this level.

use vstd::prelude::*;

verus! {

/// Ghost view of an attribute.
pub ghost struct AttrV {
    pub name: Seq<char>,
    pub value: Seq<char>,
}

/// Ghost view of an event.
pub ghost enum EventV {
    Start { name: Seq<char>, attrs: Seq<AttrV> },
    Empty { name: Seq<char>, attrs: Seq<AttrV> },
    End { name: Seq<char> },
    Text { text: Seq<char> },
    Comment,
    Other,
}

/// One attribute of a tag, in document order.
#[derive(Debug, Clone, PartialEq, Eq)]
pub struct Attr {
    pub name: String,
    pub value: String,
}

/// One structural event of the input markup.
///
/// `Other` stands for the non-structural events a tokenizer may
/// produce besides comments: declarations, processing instructions,
/// doctype declarations and CDATA sections.  The grammar skips them at
/// the container levels and rejects them inside an object body.
#[derive(Debug, Clone, PartialEq, Eq)]
pub enum Event {
    Start { name: String, attrs: Vec<Attr> },
    Empty { name: String, attrs: Vec<Attr> },
    End { name: String },
    Text { text: String },
    Comment,
    Other,
}

impl DeepView for Attr {
    type V = AttrV;

    open spec fn deep_view(&self) -> AttrV {
        AttrV { name: self.name.deep_view(), value: self.value.deep_view() }
    }
}

impl DeepView for Event {
    type V = EventV;

    open spec fn deep_view(&self) -> EventV {
        match self {
            Event::Start { name, attrs } => EventV::Start {
                name: name.deep_view(),
                attrs: attrs.deep_view(),
            },
            Event::Empty { name, attrs } => EventV::Empty {
                name: name.deep_view(),
                attrs: attrs.deep_view(),
            },
            Event::End { name } => EventV::End { name: name.deep_view() },
            Event::Text { text } => EventV::Text { text: text.deep_view() },
            Event::Comment => EventV::Comment,
            Event::Other => EventV::Other,
        }
    }
}

} // verus!
