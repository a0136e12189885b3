//! The executable recursive-descent parser.
//!
//! Each function mirrors one level of the grammar in `grammar` and is
//! proved to return exactly what the corresponding spec function
//! says, error for error.

use vstd::prelude::*;
use vstd::std_specs::iter::IteratorSpec;
use vstd::string::StringExecFns;

use crate::errors::ParseError;
use crate::events::{Attr, Event};
use crate::grammar::{
    spec_class_of, spec_empty_interface, spec_empty_meta, spec_fold_attrs, spec_object_from_tag,
    spec_parse_interface_body, spec_parse_meta_body, spec_parse_neww, spec_parse_neww_body,
    spec_parse_object, spec_parse_object_body, spec_parse_script_body, spec_parse_top,
    spec_parse_ui, spec_place_window, spec_script_from_empty_tag, spec_upper_char,
};
use crate::model::{Child, Interface, Meta, Neww, Object, ObjectV, Property, PropertyV, Script};

verus! {

/// Relies on std's String::push: appends one character at the end of
/// the string.
#[verifier::external_body]
pub(crate) fn push_char(s: &mut String, c: char)
    ensures
        final(s)@ == old(s)@.push(c),
{
    s.push(c);
}

/// ASCII upper-casing of one character.
fn upper_char(c: char) -> (r: char)
    ensures
        r == spec_upper_char(c),
{
    let cu = c as u32;
    if 97 <= cu && cu <= 122 {
        ((cu - 32) as u8) as char
    } else {
        c
    }
}

/// Derive the class a tag name denotes: `Gtk` followed by the name
/// with its first character upper-cased, the remainder unchanged.
fn class_of(name: &String) -> (r: String)
    ensures
        r@ == spec_class_of(name@),
{
    let mut out = "Gtk".to_owned();
    let mut it = name.as_str().chars();
    match it.next() {
        None => {
            assert(name@.len() == 0);
            out
        },
        Some(c) => {
            assert(c == name@[0]);
            push_char(&mut out, upper_char(c));
            let ghost done: int = 1;
            loop
                invariant
                    1 <= done <= name@.len(),
                    it.remaining() =~= name@.skip(done),
                    out@ =~= "Gtk"@ + seq![spec_upper_char(name@[0])] + name@.subrange(1, done),
                ensures
                    out@ =~= "Gtk"@ + seq![spec_upper_char(name@[0])] + name@.skip(1),
                decreases name@.len() - done,
            {
                match it.next() {
                    Some(c2) => {
                        proof {
                            assert(c2 == name@.skip(done)[0]);
                            assert(c2 == name@[done]);
                        }
                        push_char(&mut out, c2);
                        proof {
                            assert(name@.skip(done).drop_first() =~= name@.skip(done + 1));
                            assert(("Gtk"@ + seq![spec_upper_char(name@[0])] + name@.subrange(
                                1,
                                done,
                            )).push(name@[done]) =~= "Gtk"@ + seq![spec_upper_char(name@[0])]
                                + name@.subrange(1, done + 1));
                            done = done + 1;
                        }
                    },
                    None => {
                        proof {
                            assert(name@.skip(done).len() == 0);
                            assert(done == name@.len());
                            assert(name@.subrange(1, done) =~= name@.skip(1));
                        }
                        break ;
                    },
                }
            }
            out
        },
    }
}

/// Parse an object from a self-closing tag alone: derive its class
/// from the tag name and classify its attributes; no children, no
/// body.  This is also the first step of parsing a tag with a body.
pub fn parse_object_empty_tag(name: &String, attrs: &Vec<Attr>) -> (r: Object)
    ensures
        r.model() == spec_object_from_tag(name@, attrs.deep_view()),
{
    let mut object = Object {
        id: None,
        class: class_of(name),
        properties: Vec::new(),
        children: Vec::new(),
    };
    let n = attrs.len();
    let mut i: usize = 0;
    while i < n
        invariant
            n == attrs@.len(),
            0 <= i <= n,
            object.class@ == spec_class_of(name@),
            object.children@.len() == 0,
            object.id.deep_view() == spec_fold_attrs(attrs.deep_view().take(i as int)).0,
            object.properties.deep_view() =~= spec_fold_attrs(
                attrs.deep_view().take(i as int),
            ).1,
        decreases n - i,
    {
        let a = &attrs[i];
        proof {
            assert(attrs.deep_view().take(i + 1).drop_last() =~= attrs.deep_view().take(i as int));
            assert(attrs.deep_view().take(i + 1).last() == attrs@[i as int].deep_view());
        }
        if a.name == String::from_str("id") {
            object.id = Some(a.value.clone());
        } else {
            let ghost old_props = object.properties.deep_view();
            object.properties.push(Property { name: a.name.clone(), value: a.value.clone() });
            proof {
                assert(object.properties.deep_view() =~= old_props.push(
                    PropertyV { name: a.name@, value: a.value@ },
                ));
            }
        }
        i = i + 1;
    }
    proof {
        assert(attrs.deep_view().take(n as int) =~= attrs.deep_view());
        assert(object.model().properties =~= object.properties.deep_view());
        assert(object.model().children =~= Seq::<crate::model::ObjectV>::empty());
    }
    object
}

/// Parse an object whose start tag (already consumed) had this name
/// and these attributes; `pos` is the first event of its body.
pub fn parse_object(events: &Vec<Event>, pos: usize, name: &String, attrs: &Vec<Attr>) -> (r:
    Result<(Object, usize), ParseError>)
    requires
        pos <= events@.len(),
    ensures
        ({
            let s = spec_parse_object(events.deep_view(), pos as int, name@, attrs.deep_view());
            match s {
                Ok(sv) => r matches Ok(rr) && rr.0.model() == sv.0 && rr.1 == sv.1 && pos < rr.1
                    && rr.1 <= events@.len(),
                Err(e) => r matches Err(re) && re.deep_view() == e,
            }
        }),
    decreases events@.len() - pos, 1int,
{
    let object = parse_object_empty_tag(name, attrs);
    parse_object_body(events, pos, name, object)
}

/// Read an object's body, accumulating children and label properties
/// until the matching end tag.
fn parse_object_body(events: &Vec<Event>, pos: usize, name: &String, object: Object) -> (r: Result<
    (Object, usize),
    ParseError,
>)
    requires
        pos <= events@.len(),
    ensures
        ({
            let s = spec_parse_object_body(
                events.deep_view(),
                pos as int,
                name@,
                object.model(),
            );
            match s {
                Ok(sv) => r matches Ok(rr) && rr.0.model() == sv.0 && rr.1 == sv.1 && pos < rr.1
                    && rr.1 <= events@.len(),
                Err(e) => r matches Err(re) && re.deep_view() == e,
            }
        }),
    decreases events@.len() - pos, 0int,
{
    proof {
        assert(events.deep_view().len() == events@.len());
    }
    if pos >= events.len() {
        return Err(ParseError::UnexpectedEvent);
    }
    proof {
        assert(events.deep_view()[pos as int] == events@[pos as int].deep_view());
    }
    match &events[pos] {
        Event::Start { name: cname, attrs: cattrs } => {
            match parse_object(events, pos + 1, cname, cattrs) {
                Ok(rr) => {
                    let ghost old_model = object.model();
                    let mut object2 = object;
                    object2.children.push(Child { object: rr.0 });
                    proof {
                        assert(object2.model().children =~= old_model.children.push(
                            object2.children@.last().object.model(),
                        ));
                        assert(object2.model() == ObjectV {
                            id: old_model.id,
                            class: old_model.class,
                            properties: old_model.properties,
                            children: old_model.children.push(rr.0.model()),
                        });
                    }
                    return parse_object_body(events, rr.1, name, object2);
                },
                Err(e) => return Err(e),
            }
        },
        Event::Empty { name: cname, attrs: cattrs } => {
            let child = parse_object_empty_tag(cname, cattrs);
            let ghost old_model = object.model();
            let mut object2 = object;
            object2.children.push(Child { object: child });
            proof {
                assert(object2.model().children =~= old_model.children.push(
                    object2.children@.last().object.model(),
                ));
                assert(object2.model() == ObjectV {
                    id: old_model.id,
                    class: old_model.class,
                    properties: old_model.properties,
                    children: old_model.children.push(
                        spec_object_from_tag(cname@, cattrs.deep_view()),
                    ),
                });
            }
            return parse_object_body(events, pos + 1, name, object2);
        },
        Event::Text { text } => {
            let ghost old_model = object.model();
            let mut object2 = object;
            object2.properties.push(Property { name: "label".to_owned(), value: text.clone() });
            proof {
                assert(object2.model().properties =~= old_model.properties.push(
                    PropertyV { name: "label"@, value: text@ },
                ));
                assert(object2.model().children =~= old_model.children);
                assert(object2.model() == ObjectV {
                    id: old_model.id,
                    class: old_model.class,
                    properties: old_model.properties.push(
                        PropertyV { name: "label"@, value: text@ },
                    ),
                    children: old_model.children,
                });
            }
            return parse_object_body(events, pos + 1, name, object2);
        },
        Event::Comment => {
            return parse_object_body(events, pos + 1, name, object);
        },
        Event::Other => {
            return Err(ParseError::UnexpectedEvent);
        },
        Event::End { name: ename } => {
            if *ename == *name {
                return Ok((object, pos + 1));
            } else {
                return Err(
                    ParseError::UnexpectedEndTag {
                        got: ename.clone(),
                        expected: name.clone(),
                    },
                );
            }
        },
    }
}

/// Parse a `<script>` container tag: it must carry no attribute, and
/// its body concatenates text runs into one inline script.
pub fn parse_meta_script_tag(events: &Vec<Event>, pos: usize, attrs: &Vec<Attr>) -> (r: Result<
    (Script, usize),
    ParseError,
>)
    requires
        pos <= events@.len(),
    ensures
        attrs@.len() > 0 ==> (r matches Err(re) && re.deep_view()
            == crate::errors::ParseErrorV::ScriptAttrForbidden),
        attrs@.len() == 0 ==> ({
            let s = spec_parse_script_body(events.deep_view(), pos as int, Seq::empty());
            match s {
                Ok(sv) => r matches Ok(rr) && rr.0.deep_view() == sv.0 && rr.1 == sv.1 && pos
                    < rr.1 && rr.1 <= events@.len(),
                Err(e) => r matches Err(re) && re.deep_view() == e,
            }
        }),
{
    if attrs.len() > 0 {
        return Err(ParseError::ScriptAttrForbidden);
    }
    let acc = String::new();
    parse_script_body(events, pos, acc)
}

/// Read a `<script>` container body: text accumulates, comments and
/// non-structural events are skipped, tags are errors.
fn parse_script_body(events: &Vec<Event>, pos: usize, acc: String) -> (r: Result<
    (Script, usize),
    ParseError,
>)
    requires
        pos <= events@.len(),
    ensures
        ({
            let s = spec_parse_script_body(events.deep_view(), pos as int, acc@);
            match s {
                Ok(sv) => r matches Ok(rr) && rr.0.deep_view() == sv.0 && rr.1 == sv.1 && pos
                    < rr.1 && rr.1 <= events@.len(),
                Err(e) => r matches Err(re) && re.deep_view() == e,
            }
        }),
    decreases events@.len() - pos,
{
    if pos >= events.len() {
        return Err(ParseError::UnexpectedEof);
    }
    proof {
        assert(events.deep_view()[pos as int] == events@[pos as int].deep_view());
    }
    match &events[pos] {
        Event::Start { name, .. } => Err(ParseError::UnexpectedStartTag { got: name.clone() }),
        Event::Empty { .. } => Err(ParseError::UnexpectedEmptyTag),
        Event::Text { text } => {
            let mut acc2 = acc;
            acc2.append(text.as_str());
            parse_script_body(events, pos + 1, acc2)
        },
        Event::Comment => parse_script_body(events, pos + 1, acc),
        Event::Other => parse_script_body(events, pos + 1, acc),
        Event::End { name } => {
            if *name == String::from_str("script") {
                Ok((Script::Inline(acc), pos + 1))
            } else {
                Err(
                    ParseError::UnexpectedEndTag {
                        got: name.clone(),
                        expected: "script".to_owned(),
                    },
                )
            }
        },
    }
}

/// Parse an empty `<script/>` tag: its first attribute must be named
/// `src`, and its value becomes the script's source path.
pub fn parse_meta_script_empty_tag(attrs: &Vec<Attr>) -> (r: Result<Script, ParseError>)
    ensures
        ({
            let s = spec_script_from_empty_tag(attrs.deep_view());
            match s {
                Ok(sv) => r matches Ok(rs) && rs.deep_view() == sv,
                Err(e) => r matches Err(re) && re.deep_view() == e,
            }
        }),
{
    if attrs.len() == 0 {
        Err(ParseError::ScriptSrcMissing)
    } else {
        let a = &attrs[0];
        if a.name == String::from_str("src") {
            Ok(Script::SourcePath(a.value.clone()))
        } else {
            Err(ParseError::ScriptAttrNotSrc { got: a.name.clone() })
        }
    }
}

/// Read a `<meta>` body: collect `script` tags, in order, until the
/// closing tag.
pub fn parse_meta_tag(events: &Vec<Event>, pos: usize, scripts: Vec<Script>) -> (r: Result<
    (Meta, usize),
    ParseError,
>)
    requires
        pos <= events@.len(),
    ensures
        ({
            let s = spec_parse_meta_body(events.deep_view(), pos as int, scripts.deep_view());
            match s {
                Ok(sv) => r matches Ok(rr) && rr.0.deep_view() == sv.0 && rr.1 == sv.1 && pos
                    < rr.1 && rr.1 <= events@.len(),
                Err(e) => r matches Err(re) && re.deep_view() == e,
            }
        }),
    decreases events@.len() - pos,
{
    if pos >= events.len() {
        return Err(ParseError::UnexpectedEof);
    }
    proof {
        assert(events.deep_view()[pos as int] == events@[pos as int].deep_view());
    }
    match &events[pos] {
        Event::Start { name, attrs } => {
            if *name == String::from_str("script") {
                match parse_meta_script_tag(events, pos + 1, attrs) {
                    Ok(rr) => {
                        let ghost old_scripts = scripts.deep_view();
                        let mut scripts2 = scripts;
                        scripts2.push(rr.0);
                        proof {
                            assert(scripts2.deep_view() =~= old_scripts.push(
                                scripts2@.last().deep_view(),
                            ));
                        }
                        parse_meta_tag(events, rr.1, scripts2)
                    },
                    Err(e) => Err(e),
                }
            } else {
                Err(ParseError::UnexpectedStartTag { got: name.clone() })
            }
        },
        Event::Empty { name, attrs } => {
            if *name == String::from_str("script") {
                match parse_meta_script_empty_tag(attrs) {
                    Ok(s) => {
                        let ghost old_scripts = scripts.deep_view();
                        let mut scripts2 = scripts;
                        scripts2.push(s);
                        proof {
                            assert(scripts2.deep_view() =~= old_scripts.push(
                                scripts2@.last().deep_view(),
                            ));
                        }
                        parse_meta_tag(events, pos + 1, scripts2)
                    },
                    Err(e) => Err(e),
                }
            } else {
                Err(ParseError::UnexpectedStartTag { got: name.clone() })
            }
        },
        Event::Text { .. } => Err(ParseError::UnexpectedText),
        Event::Comment => parse_meta_tag(events, pos + 1, scripts),
        Event::Other => parse_meta_tag(events, pos + 1, scripts),
        Event::End { name } => {
            if *name == String::from_str("meta") {
                Ok((Meta { scripts }, pos + 1))
            } else {
                Err(
                    ParseError::UnexpectedEndTag {
                        got: name.clone(),
                        expected: "meta".to_owned(),
                    },
                )
            }
        },
    }
}

/// Place a parsed window: one whose id is `main` goes to the front
/// of the sequence, every other one is appended in document order.
fn place_window(windows: Vec<Object>, obj: Object) -> (r: Vec<Object>)
    ensures
        r.deep_view() == spec_place_window(windows.deep_view(), obj.model()),
{
    let ghost old_windows = windows.deep_view();
    let ghost obj_model = obj.model();
    let mut windows2 = windows;
    let mut placed_front = false;
    if let Some(id) = &obj.id {
        if *id == String::from_str("main") {
            placed_front = true;
        }
    }
    if placed_front {
        windows2.insert(0, obj);
    } else {
        windows2.push(obj);
    }
    proof {
        assert(windows2.deep_view() =~= spec_place_window(old_windows, obj_model));
    }
    windows2
}

/// Read an `<interface>` body: every start or self-closing tag must
/// parse to a `GtkWindow` object; a window whose id is `main` goes to
/// the front of the sequence, every other one is appended in document
/// order.
pub fn parse_interface_tag(events: &Vec<Event>, pos: usize, windows: Vec<Object>) -> (r: Result<
    (Interface, usize),
    ParseError,
>)
    requires
        pos <= events@.len(),
    ensures
        ({
            let s = spec_parse_interface_body(
                events.deep_view(),
                pos as int,
                windows.deep_view(),
            );
            match s {
                Ok(sv) => r matches Ok(rr) && rr.0.deep_view() == sv.0 && rr.1 == sv.1 && pos
                    < rr.1 && rr.1 <= events@.len(),
                Err(e) => r matches Err(re) && re.deep_view() == e,
            }
        }),
    decreases events@.len() - pos,
{
    if pos >= events.len() {
        return Err(ParseError::UnexpectedEof);
    }
    proof {
        assert(events.deep_view()[pos as int] == events@[pos as int].deep_view());
    }
    match &events[pos] {
        Event::Start { name, attrs } => {
            match parse_object(events, pos + 1, name, attrs) {
                Ok(rr) => {
                    let (obj, p2) = rr;
                    if obj.class == String::from_str("GtkWindow") {
                        let windows2 = place_window(windows, obj);
                        parse_interface_tag(events, p2, windows2)
                    } else {
                        Err(ParseError::ClassNotWindow { got: obj.class })
                    }
                },
                Err(e) => Err(e),
            }
        },
        Event::Empty { name, attrs } => {
            let obj = parse_object_empty_tag(name, attrs);
            if obj.class == String::from_str("GtkWindow") {
                let windows2 = place_window(windows, obj);
                parse_interface_tag(events, pos + 1, windows2)
            } else {
                Err(ParseError::ClassNotWindow { got: obj.class })
            }
        },
        Event::Text { .. } => Err(ParseError::UnexpectedText),
        Event::Comment => parse_interface_tag(events, pos + 1, windows),
        Event::Other => parse_interface_tag(events, pos + 1, windows),
        Event::End { name } => {
            if *name == String::from_str("interface") {
                Ok((Interface { windows }, pos + 1))
            } else {
                Err(
                    ParseError::UnexpectedEndTag {
                        got: name.clone(),
                        expected: "interface".to_owned(),
                    },
                )
            }
        },
    }
}

/// Read a `<neww>` body: `meta` and `interface` sections, each
/// overwriting the one before it, until the closing tag.
pub fn parse_neww_tag(events: &Vec<Event>, pos: usize, meta: Meta, interface: Interface) -> (r:
    Result<(Neww, usize), ParseError>)
    requires
        pos <= events@.len(),
    ensures
        ({
            let s = spec_parse_neww_body(
                events.deep_view(),
                pos as int,
                meta.deep_view(),
                interface.deep_view(),
            );
            match s {
                Ok(sv) => r matches Ok(rr) && rr.0.deep_view() == sv.0 && rr.1 == sv.1 && pos
                    < rr.1 && rr.1 <= events@.len(),
                Err(e) => r matches Err(re) && re.deep_view() == e,
            }
        }),
    decreases events@.len() - pos,
{
    if pos >= events.len() {
        return Err(ParseError::UnexpectedEof);
    }
    proof {
        assert(events.deep_view()[pos as int] == events@[pos as int].deep_view());
    }
    match &events[pos] {
        Event::Start { name, .. } => {
            if *name == String::from_str("meta") {
                let fresh: Vec<Script> = Vec::new();
                proof {
                    assert(fresh.deep_view() =~= Seq::<crate::model::ScriptV>::empty());
                }
                match parse_meta_tag(events, pos + 1, fresh) {
                    Ok(rr) => parse_neww_tag(events, rr.1, rr.0, interface),
                    Err(e) => Err(e),
                }
            } else if *name == String::from_str("interface") {
                let fresh: Vec<Object> = Vec::new();
                proof {
                    assert(fresh.deep_view() =~= Seq::<ObjectV>::empty());
                }
                match parse_interface_tag(events, pos + 1, fresh) {
                    Ok(rr) => parse_neww_tag(events, rr.1, meta, rr.0),
                    Err(e) => Err(e),
                }
            } else {
                Err(ParseError::UnexpectedStartTag { got: name.clone() })
            }
        },
        Event::Empty { .. } => Err(ParseError::UnexpectedEmptyTag),
        Event::Text { .. } => Err(ParseError::UnexpectedText),
        Event::Comment => parse_neww_tag(events, pos + 1, meta, interface),
        Event::Other => parse_neww_tag(events, pos + 1, meta, interface),
        Event::End { name } => {
            if *name == String::from_str("neww") {
                Ok((Neww { meta, interface }, pos + 1))
            } else {
                Err(
                    ParseError::UnexpectedEndTag {
                        got: name.clone(),
                        expected: "neww".to_owned(),
                    },
                )
            }
        },
    }
}

/// Top level of a document: skip non-structural events until the
/// root `<neww>` tag and read its body.
fn parse_top(events: &Vec<Event>, pos: usize) -> (r: Result<(Neww, usize), ParseError>)
    requires
        pos <= events@.len(),
    ensures
        ({
            let s = spec_parse_top(events.deep_view(), pos as int);
            match s {
                Ok(sv) => r matches Ok(rr) && rr.0.deep_view() == sv.0 && rr.1 == sv.1,
                Err(e) => r matches Err(re) && re.deep_view() == e,
            }
        }),
    decreases events@.len() - pos,
{
    if pos >= events.len() {
        return Err(ParseError::UnexpectedEof);
    }
    proof {
        assert(events.deep_view()[pos as int] == events@[pos as int].deep_view());
    }
    match &events[pos] {
        Event::Start { name, .. } => {
            if *name == String::from_str("neww") {
                let meta = Meta::default();
                let interface = Interface::default();
                proof {
                    assert(meta.deep_view() =~~= spec_empty_meta());
                    assert(interface.deep_view() =~~= spec_empty_interface());
                }
                match parse_neww_tag(events, pos + 1, meta, interface) {
                    Ok(rr) => Ok(rr),
                    Err(e) => Err(e),
                }
            } else {
                Err(ParseError::UnexpectedStartTag { got: name.clone() })
            }
        },
        Event::Empty { .. } => Err(ParseError::UnexpectedEmptyTag),
        Event::Text { .. } => Err(ParseError::UnexpectedText),
        Event::Comment => parse_top(events, pos + 1),
        Event::Other => parse_top(events, pos + 1),
        Event::End { name } => {
            Err(
                ParseError::UnexpectedEndTag { got: name.clone(), expected: "neww".to_owned() },
            )
        },
    }
}

/// Parse a whole event stream as a document.  Events after the root
/// tag closes are not examined.
pub fn parse_document(events: &Vec<Event>) -> (r: Result<Neww, ParseError>)
    ensures
        ({
            let s = spec_parse_neww(events.deep_view());
            match s {
                Ok(sv) => r matches Ok(rd) && rd.deep_view() == sv,
                Err(e) => r matches Err(re) && re.deep_view() == e,
            }
        }),
        r matches Ok(rd) ==> crate::laws::spec_windows_wf(
            rd.deep_view().interface.windows,
            0,
        ),
{
    proof {
        crate::laws::lemma_document_windows_wf(events.deep_view());
    }
    match parse_top(events, 0) {
        Ok(rr) => Ok(rr.0),
        Err(e) => Err(e),
    }
}

/// Parse an event stream as a bare widget subtree: the first tag
/// becomes one object; an empty stream yields nothing.
pub fn parse_ui_document(events: &Vec<Event>, pos: usize) -> (r: Result<
    Option<Object>,
    ParseError,
>)
    requires
        pos <= events@.len(),
    ensures
        ({
            let s = spec_parse_ui(events.deep_view(), pos as int);
            match s {
                Ok(sv) => r matches Ok(ro) && (match sv {
                    Some(ov) => ro matches Some(robj) && robj.model() == ov,
                    None => ro is None,
                }),
                Err(e) => r matches Err(re) && re.deep_view() == e,
            }
        }),
    decreases events@.len() - pos,
{
    if pos >= events.len() {
        return Ok(None);
    }
    proof {
        assert(events.deep_view()[pos as int] == events@[pos as int].deep_view());
    }
    match &events[pos] {
        Event::Start { name, attrs } => {
            match parse_object(events, pos + 1, name, attrs) {
                Ok(rr) => Ok(Some(rr.0)),
                Err(e) => Err(e),
            }
        },
        Event::Empty { name, attrs } => Ok(Some(parse_object_empty_tag(name, attrs))),
        Event::Text { .. } => Err(ParseError::UnexpectedText),
        Event::Comment => parse_ui_document(events, pos + 1),
        Event::Other => parse_ui_document(events, pos + 1),
        Event::End { name } => {
            Err(ParseError::UnexpectedEndTag { got: name.clone(), expected: String::new() })
        },
    }
}

} // verus!
