//! The streaming event source, behind a trusted boundary.
//!
//! The tokenizer turns raw markup text into the plain `Event` values
//! the parser consumes.  What the reader makes of a given text takes
//! pages to state, but it depends on the text alone, so the result
//! carries a name, `spec_tokenize`: the contract of `tokenize` says
//! it returns exactly that, and the entry points' contracts are
//! stated over the name.  Each call into the `quick_xml` crate stands
//! in a small trusted item; the conversion of each event into plain
//! values is verified code (`convert_raw`).

use vstd::prelude::*;

use crate::errors::ParseError;
use crate::events::{Attr, Event, EventV};

verus! {

#[verifier::external_type_specification]
#[verifier::external_body]
#[verifier::reject_recursive_types(R)]
pub struct ExReader<R>(quick_xml::reader::Reader<R>);

#[verifier::external_type_specification]
#[verifier::external_body]
pub struct ExBytesStart<'a>(quick_xml::events::BytesStart<'a>);

#[verifier::external_type_specification]
#[verifier::external_body]
pub struct ExBytesEnd<'a>(quick_xml::events::BytesEnd<'a>);

#[verifier::external_type_specification]
#[verifier::external_body]
pub struct ExBytesText<'a>(quick_xml::events::BytesText<'a>);

/// One event as the reader hands it over, its payload still opaque.
enum RawEvent {
    Start(quick_xml::events::BytesStart<'static>),
    Empty(quick_xml::events::BytesStart<'static>),
    End(quick_xml::events::BytesEnd<'static>),
    Text(quick_xml::events::BytesText<'static>),
    Comment,
    Other,
}

/// What tokenizing a text yields: the whole event sequence of the
/// input, whitespace around text runs trimmed and whitespace-only
/// runs dropped, names and values decoded as UTF-8 - or the first
/// syntax or encoding error.  The reader computes this from the text
/// alone, so the result is a function of the text; no more of it is
/// stated than the trusted items below say.
pub uninterp spec fn spec_tokenize(text: Seq<char>) -> Result<Seq<EventV>, crate::errors::ParseErrorV>;

/// Relies on quick_xml's Reader::read_event: the next structural
/// event of the input, or a syntax error; one arm per event kind,
/// payloads moved out unchanged, `None` at the end of the input.
#[verifier::external_body]
fn read_raw_event<'a>(reader: &mut quick_xml::reader::Reader<&'a [u8]>) -> (r: Result<
    Option<RawEvent>,
    ParseError,
>)
    ensures
        r matches Err(e) ==> e == ParseError::BadSyntax,
{
    match reader.read_event() {
        Ok(quick_xml::events::Event::Start(t)) => Ok(Some(RawEvent::Start(t.into_owned()))),
        Ok(quick_xml::events::Event::Empty(t)) => Ok(Some(RawEvent::Empty(t.into_owned()))),
        Ok(quick_xml::events::Event::End(t)) => Ok(Some(RawEvent::End(t.into_owned()))),
        Ok(quick_xml::events::Event::Text(t)) => Ok(Some(RawEvent::Text(t.into_owned()))),
        Ok(quick_xml::events::Event::Comment(_)) => Ok(Some(RawEvent::Comment)),
        Ok(quick_xml::events::Event::Eof) => Ok(None),
        Ok(_) => Ok(Some(RawEvent::Other)),
        Err(_) => Err(ParseError::BadSyntax),
    }
}

/// Relies on quick_xml's BytesStart::name: the tag's name bytes,
/// decoded here as UTF-8.
#[verifier::external_body]
fn start_tag_name(tag: &quick_xml::events::BytesStart<'static>) -> (r: Result<String, ParseError>)
    ensures
        r matches Err(e) ==> e == ParseError::InvalidUtf8,
{
    match String::from_utf8(tag.name().as_ref().to_vec()) {
        Ok(name) => Ok(name),
        Err(_) => Err(ParseError::InvalidUtf8),
    }
}

/// Relies on quick_xml's BytesEnd::name: the closing tag's name
/// bytes, decoded here as UTF-8.
#[verifier::external_body]
fn end_tag_name(tag: &quick_xml::events::BytesEnd<'static>) -> (r: Result<String, ParseError>)
    ensures
        r matches Err(e) ==> e == ParseError::InvalidUtf8,
{
    match String::from_utf8(tag.name().as_ref().to_vec()) {
        Ok(name) => Ok(name),
        Err(_) => Err(ParseError::InvalidUtf8),
    }
}

/// Relies on quick_xml's BytesStart::attributes: the tag's
/// attributes, in document order; every step of that iterator is a
/// call into quick_xml, so the whole walk stays behind this boundary.
/// Names and values are decoded here as UTF-8, one for one.
#[verifier::external_body]
fn start_tag_attrs(tag: &quick_xml::events::BytesStart<'static>) -> (r: Result<
    Vec<Attr>,
    ParseError,
>)
    ensures
        r matches Err(e) ==> (e == ParseError::BadSyntax || e == ParseError::InvalidUtf8),
{
    let mut out = Vec::new();
    for a in tag.attributes() {
        let a = match a { Ok(a) => a, Err(_) => return Err(ParseError::BadSyntax) };
        match (String::from_utf8(a.key.as_ref().to_vec()), String::from_utf8(a.value.to_vec())) {
            (Ok(name), Ok(value)) => out.push(Attr { name, value }),
            _ => return Err(ParseError::InvalidUtf8),
        }
    }
    Ok(out)
}

/// Relies on quick_xml's BytesText::into_inner: the trimmed text
/// bytes, decoded here as UTF-8.
#[verifier::external_body]
fn text_content(text: quick_xml::events::BytesText<'static>) -> (r: Result<String, ParseError>)
    ensures
        r matches Err(e) ==> e == ParseError::InvalidUtf8,
{
    match String::from_utf8(text.into_inner().to_vec()) {
        Ok(t) => Ok(t),
        Err(_) => Err(ParseError::InvalidUtf8),
    }
}

/// Turn one opaque event into plain values: the tag name, its
/// attributes and the text run, each decoded behind its own trusted
/// item; the name is decoded before the attributes, so an encoding
/// error in the name is reported first.
fn convert_raw(raw: RawEvent) -> (r: Result<Event, ParseError>) {
    match raw {
        RawEvent::Start(t) => {
            let name = match start_tag_name(&t) {
                Ok(n) => n,
                Err(e) => return Err(e),
            };
            let attrs = match start_tag_attrs(&t) {
                Ok(a) => a,
                Err(e) => return Err(e),
            };
            Ok(Event::Start { name, attrs })
        },
        RawEvent::Empty(t) => {
            let name = match start_tag_name(&t) {
                Ok(n) => n,
                Err(e) => return Err(e),
            };
            let attrs = match start_tag_attrs(&t) {
                Ok(a) => a,
                Err(e) => return Err(e),
            };
            Ok(Event::Empty { name, attrs })
        },
        RawEvent::End(t) => {
            match end_tag_name(&t) {
                Ok(name) => Ok(Event::End { name }),
                Err(e) => Err(e),
            }
        },
        RawEvent::Text(t) => {
            match text_content(t) {
                Ok(content) => Ok(Event::Text { text: content }),
                Err(e) => Err(e),
            }
        },
        RawEvent::Comment => Ok(Event::Comment),
        RawEvent::Other => Ok(Event::Other),
    }
}

/// Tokenize a whole input into plain events, stopping at the end of
/// the input.
///
/// Relies on quick_xml's Reader::from_str, Reader::trim_text and the
/// read loop over Reader::read_event: together they compute, from
/// the text alone, the event sequence that `spec_tokenize` names,
/// and this function returns exactly that.  Its errors are those of
/// the boundary: ill-formed markup, or a name, value or text run
/// that is not UTF-8.
#[verifier::external_body]
pub fn tokenize(text: &str) -> (r: Result<Vec<Event>, ParseError>)
    ensures
        (match spec_tokenize(text@) {
            Ok(evs) => r matches Ok(v) && v.deep_view() == evs,
            Err(e) => r matches Err(re) && re.deep_view() == e,
        }),
        r matches Err(re) ==> (re.deep_view() == crate::errors::ParseErrorV::BadSyntax
            || re.deep_view() == crate::errors::ParseErrorV::InvalidUtf8),
{
    let mut reader = quick_xml::reader::Reader::from_str(text);
    reader.trim_text(true);
    let mut events: Vec<Event> = Vec::new();
    loop {
        match read_raw_event(&mut reader) {
            Err(e) => return Err(e),
            Ok(None) => return Ok(events),
            Ok(Some(raw)) => match convert_raw(raw) {
                Ok(ev) => events.push(ev),
                Err(e) => return Err(e),
            },
        }
    }
}

} // verus!
