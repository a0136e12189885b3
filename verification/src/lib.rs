//! Parser and serializer for the `neww` declarative UI markup format.
//!
//! A `neww` document describes an application's windows and auxiliary
//! scripts.  The parser consumes a stream of structural markup events,
//! enforces the document grammar, and produces a typed tree; the
//! serializer re-emits a widget subtree as toolkit-builder XML.

use vstd::prelude::*;

pub mod errors;
pub mod events;
pub mod grammar;
pub mod laws;
pub mod model;
pub mod parse;
pub mod serialize;
pub mod xmlio;

pub use errors::ParseError;
pub use events::{Attr, Event};
pub use model::{Child, Interface, Meta, Neww, Object, Property, Script};
pub use parse::{parse_document, parse_object, parse_object_empty_tag};
pub use serialize::{serialize_interface, serialize_object};

verus! {

/// Parse raw markup text into a document: tokenize the whole input,
/// then run the grammar over the events.
///
/// The result is pinned over `spec_tokenize`, the name of what the
/// event source makes of the text: a tokenizer error is returned as
/// it is, and on its events the result is exactly what the grammar
/// says - tree on success, the grammar's error otherwise.  Text
/// after the root tag closes is not examined by the grammar.
pub fn parse_neww(text: &str) -> (r: Result<Neww, ParseError>)
    ensures
        (match xmlio::spec_tokenize(text@) {
            Ok(evs) => (match grammar::spec_parse_neww(evs) {
                Ok(dv) => r matches Ok(d) && d.deep_view() == dv,
                Err(e) => r matches Err(re) && re.deep_view() == e,
            }),
            Err(e) => r matches Err(re) && re.deep_view() == e,
        }),
        r matches Ok(d) ==> laws::spec_windows_wf(d.deep_view().interface.windows, 0),
{
    let events = match xmlio::tokenize(text) {
        Ok(evs) => evs,
        Err(e) => {
            return Err(e);
        },
    };
    parse::parse_document(&events)
}

/// Parse raw markup text as a bare widget subtree: the first tag of
/// the input becomes one object; empty input yields nothing.
///
/// As with `parse_neww`, the result is pinned over `spec_tokenize`:
/// whatever the text tokenizes to, the result is exactly what the
/// subtree grammar says of those events.
pub fn parse_neww_ui(text: &str) -> (r: Result<Option<Object>, ParseError>)
    ensures
        (match xmlio::spec_tokenize(text@) {
            Ok(evs) => (match grammar::spec_parse_ui(evs, 0) {
                Ok(ov) => r matches Ok(ro) && (match ov {
                    Some(x) => ro matches Some(o) && o.model() == x,
                    None => ro is None,
                }),
                Err(e) => r matches Err(re) && re.deep_view() == e,
            }),
            Err(e) => r matches Err(re) && re.deep_view() == e,
        }),
{
    let events = match xmlio::tokenize(text) {
        Ok(evs) => evs,
        Err(e) => {
            return Err(e);
        },
    };
    parse::parse_ui_document(&events, 0)
}

} // verus!
