//! The document grammar, as spec functions.
//!
//! These functions define, over a ghost sequence of events, exactly
//! what every parse returns: the tree on success, the error otherwise.
//! The executable parser in `parse` is proved equal to them.  Each
//! grammar level reads successive events from its position and either
//! skips, accepts or rejects each event kind; the container levels
//! (document, `neww`, `meta`, `script`, `interface`) skip
//! non-structural events, while an object body rejects all of them
//! but comments.
//!
//! Positions move strictly forward.  The range guards on the
//! recursive calls record that; the executable parser's contracts in
//! `parse` show they never fail, since every level returns a position
//! past the one it started at and within the event sequence.

use vstd::prelude::*;

use crate::errors::ParseErrorV;
use crate::events::{AttrV, EventV};
use crate::model::{InterfaceV, MetaV, NewwV, ObjectV, PropertyV, ScriptV};

verus! {

/// ASCII upper-casing of one character; every other character is kept.
pub open spec fn spec_upper_char(c: char) -> char {
    if 97 <= (c as u32) && (c as u32) <= 122 {
        (((c as u32) - 32) as u8) as char
    } else {
        c
    }
}

/// The class a tag name derives: `Gtk` followed by the tag name with
/// its first character upper-cased and the remainder unchanged.
pub open spec fn spec_class_of(name: Seq<char>) -> Seq<char> {
    if name.len() == 0 {
        "Gtk"@
    } else {
        "Gtk"@ + seq![spec_upper_char(name[0])] + name.skip(1)
    }
}

/// Classify a tag's attributes: an attribute named `id` sets the id
/// (the last occurrence wins); every other one, repeats included,
/// becomes a property, in document order.
pub open spec fn spec_fold_attrs(attrs: Seq<AttrV>) -> (Option<Seq<char>>, Seq<PropertyV>)
    decreases attrs.len(),
{
    if attrs.len() == 0 {
        (None, Seq::<PropertyV>::empty())
    } else {
        let prev = spec_fold_attrs(attrs.drop_last());
        let a = attrs.last();
        if a.name == "id"@ {
            (Some(a.value), prev.1)
        } else {
            (prev.0, prev.1.push(PropertyV { name: a.name, value: a.value }))
        }
    }
}

/// The object a tag alone denotes: derived class, classified
/// attributes, no children yet.
pub open spec fn spec_object_from_tag(name: Seq<char>, attrs: Seq<AttrV>) -> ObjectV {
    let fold = spec_fold_attrs(attrs);
    ObjectV { id: fold.0, class: spec_class_of(name), properties: fold.1, children: Seq::empty() }
}

/// Parse an object whose start tag (already consumed) had this name
/// and these attributes; `pos` is the first event of its body.
pub open spec fn spec_parse_object(
    evs: Seq<EventV>,
    pos: int,
    name: Seq<char>,
    attrs: Seq<AttrV>,
) -> Result<(ObjectV, int), ParseErrorV>
    decreases evs.len() - pos, 1int,
{
    spec_parse_object_body(evs, pos, name, spec_object_from_tag(name, attrs))
}

/// Read an object's body: child tags recurse, text runs become
/// `label` properties, comments are skipped, any other non-structural
/// event or the end of input is fatal, and the matching end tag
/// finishes the object.
pub open spec fn spec_parse_object_body(
    evs: Seq<EventV>,
    pos: int,
    name: Seq<char>,
    obj: ObjectV,
) -> Result<(ObjectV, int), ParseErrorV>
    decreases evs.len() - pos, 0int,
{
    if pos < 0 || pos >= evs.len() {
        Err(ParseErrorV::UnexpectedEvent)
    } else {
        match evs[pos] {
            EventV::Start { name: cname, attrs: cattrs } => {
                match spec_parse_object(evs, pos + 1, cname, cattrs) {
                    Ok((child, p2)) => {
                        if pos + 1 <= p2 && p2 <= evs.len() {
                            spec_parse_object_body(
                                evs,
                                p2,
                                name,
                                ObjectV {
                                    id: obj.id,
                                    class: obj.class,
                                    properties: obj.properties,
                                    children: obj.children.push(child),
                                },
                            )
                        } else {
                            Err(ParseErrorV::UnexpectedEvent)
                        }
                    },
                    Err(e) => Err(e),
                }
            },
            EventV::Empty { name: cname, attrs: cattrs } => spec_parse_object_body(
                evs,
                pos + 1,
                name,
                ObjectV {
                    id: obj.id,
                    class: obj.class,
                    properties: obj.properties,
                    children: obj.children.push(spec_object_from_tag(cname, cattrs)),
                },
            ),
            EventV::Text { text } => spec_parse_object_body(
                evs,
                pos + 1,
                name,
                ObjectV {
                    id: obj.id,
                    class: obj.class,
                    properties: obj.properties.push(PropertyV { name: "label"@, value: text }),
                    children: obj.children,
                },
            ),
            EventV::Comment => spec_parse_object_body(evs, pos + 1, name, obj),
            EventV::Other => Err(ParseErrorV::UnexpectedEvent),
            EventV::End { name: ename } => {
                if ename == name {
                    Ok((obj, pos + 1))
                } else {
                    Err(ParseErrorV::UnexpectedEndTag { got: ename, expected: name })
                }
            },
        }
    }
}

/// Read a `<script>` container body: text runs concatenate into one
/// inline script, comments and other non-structural events are
/// skipped, nested tags are errors.
pub open spec fn spec_parse_script_body(evs: Seq<EventV>, pos: int, acc: Seq<char>) -> Result<
    (ScriptV, int),
    ParseErrorV,
>
    decreases evs.len() - pos,
{
    if pos < 0 || pos >= evs.len() {
        Err(ParseErrorV::UnexpectedEof)
    } else {
        match evs[pos] {
            EventV::Start { name, .. } => Err(ParseErrorV::UnexpectedStartTag { got: name }),
            EventV::Empty { .. } => Err(ParseErrorV::UnexpectedEmptyTag),
            EventV::Text { text } => spec_parse_script_body(evs, pos + 1, acc + text),
            EventV::Comment => spec_parse_script_body(evs, pos + 1, acc),
            EventV::Other => spec_parse_script_body(evs, pos + 1, acc),
            EventV::End { name } => {
                if name == "script"@ {
                    Ok((ScriptV::Inline(acc), pos + 1))
                } else {
                    Err(ParseErrorV::UnexpectedEndTag { got: name, expected: "script"@ })
                }
            },
        }
    }
}

/// The script an empty `<script/>` tag denotes: its first attribute
/// must be `src`, whose value becomes the source path; further
/// attributes are not examined.
pub open spec fn spec_script_from_empty_tag(attrs: Seq<AttrV>) -> Result<ScriptV, ParseErrorV> {
    if attrs.len() == 0 {
        Err(ParseErrorV::ScriptSrcMissing)
    } else if attrs[0].name == "src"@ {
        Ok(ScriptV::SourcePath(attrs[0].value))
    } else {
        Err(ParseErrorV::ScriptAttrNotSrc { got: attrs[0].name })
    }
}

/// Read a `<meta>` body: `script` container tags (which must carry no
/// attribute) and empty `script` tags are collected in order, any
/// other tag or text is an error, non-structural events are skipped.
pub open spec fn spec_parse_meta_body(evs: Seq<EventV>, pos: int, scripts: Seq<ScriptV>) -> Result<
    (MetaV, int),
    ParseErrorV,
>
    decreases evs.len() - pos,
{
    if pos < 0 || pos >= evs.len() {
        Err(ParseErrorV::UnexpectedEof)
    } else {
        match evs[pos] {
            EventV::Start { name, attrs } => {
                if name == "script"@ {
                    if attrs.len() > 0 {
                        Err(ParseErrorV::ScriptAttrForbidden)
                    } else {
                        match spec_parse_script_body(evs, pos + 1, Seq::empty()) {
                            Ok((s, p2)) => {
                                if pos + 1 <= p2 && p2 <= evs.len() {
                                    spec_parse_meta_body(evs, p2, scripts.push(s))
                                } else {
                                    Err(ParseErrorV::UnexpectedEof)
                                }
                            },
                            Err(e) => Err(e),
                        }
                    }
                } else {
                    Err(ParseErrorV::UnexpectedStartTag { got: name })
                }
            },
            EventV::Empty { name, attrs } => {
                if name == "script"@ {
                    match spec_script_from_empty_tag(attrs) {
                        Ok(s) => spec_parse_meta_body(evs, pos + 1, scripts.push(s)),
                        Err(e) => Err(e),
                    }
                } else {
                    Err(ParseErrorV::UnexpectedStartTag { got: name })
                }
            },
            EventV::Text { .. } => Err(ParseErrorV::UnexpectedText),
            EventV::Comment => spec_parse_meta_body(evs, pos + 1, scripts),
            EventV::Other => spec_parse_meta_body(evs, pos + 1, scripts),
            EventV::End { name } => {
                if name == "meta"@ {
                    Ok((MetaV { scripts }, pos + 1))
                } else {
                    Err(ParseErrorV::UnexpectedEndTag { got: name, expected: "meta"@ })
                }
            },
        }
    }
}

/// Insert a parsed window: one whose id is `main` goes to the front,
/// every other one is appended in document order.
pub open spec fn spec_place_window(windows: Seq<ObjectV>, obj: ObjectV) -> Seq<ObjectV> {
    if obj.id == Some("main"@) {
        windows.insert(0, obj)
    } else {
        windows.push(obj)
    }
}

/// Read an `<interface>` body: every start or self-closing tag is
/// parsed as an object whose class must be `GtkWindow`; text is an
/// error, non-structural events are skipped.
pub open spec fn spec_parse_interface_body(
    evs: Seq<EventV>,
    pos: int,
    windows: Seq<ObjectV>,
) -> Result<(InterfaceV, int), ParseErrorV>
    decreases evs.len() - pos,
{
    if pos < 0 || pos >= evs.len() {
        Err(ParseErrorV::UnexpectedEof)
    } else {
        match evs[pos] {
            EventV::Start { name, attrs } => {
                match spec_parse_object(evs, pos + 1, name, attrs) {
                    Ok((obj, p2)) => {
                        if obj.class == "GtkWindow"@ {
                            if pos + 1 <= p2 && p2 <= evs.len() {
                                spec_parse_interface_body(evs, p2, spec_place_window(windows, obj))
                            } else {
                                Err(ParseErrorV::UnexpectedEof)
                            }
                        } else {
                            Err(ParseErrorV::ClassNotWindow { got: obj.class })
                        }
                    },
                    Err(e) => Err(e),
                }
            },
            EventV::Empty { name, attrs } => {
                let obj = spec_object_from_tag(name, attrs);
                if obj.class == "GtkWindow"@ {
                    spec_parse_interface_body(evs, pos + 1, spec_place_window(windows, obj))
                } else {
                    Err(ParseErrorV::ClassNotWindow { got: obj.class })
                }
            },
            EventV::Text { .. } => Err(ParseErrorV::UnexpectedText),
            EventV::Comment => spec_parse_interface_body(evs, pos + 1, windows),
            EventV::Other => spec_parse_interface_body(evs, pos + 1, windows),
            EventV::End { name } => {
                if name == "interface"@ {
                    Ok((InterfaceV { windows }, pos + 1))
                } else {
                    Err(ParseErrorV::UnexpectedEndTag { got: name, expected: "interface"@ })
                }
            },
        }
    }
}

/// Read a `<neww>` body: `meta` and `interface` sections, each
/// assigned to its field when it closes (a repeat overwrites the
/// earlier one); any other tag, empty tag or text is an error,
/// non-structural events are skipped.
pub open spec fn spec_parse_neww_body(
    evs: Seq<EventV>,
    pos: int,
    meta: MetaV,
    interface: InterfaceV,
) -> Result<(NewwV, int), ParseErrorV>
    decreases evs.len() - pos,
{
    if pos < 0 || pos >= evs.len() {
        Err(ParseErrorV::UnexpectedEof)
    } else {
        match evs[pos] {
            EventV::Start { name, .. } => {
                if name == "meta"@ {
                    match spec_parse_meta_body(evs, pos + 1, Seq::empty()) {
                        Ok((m, p2)) => {
                            if pos + 1 <= p2 && p2 <= evs.len() {
                                spec_parse_neww_body(evs, p2, m, interface)
                            } else {
                                Err(ParseErrorV::UnexpectedEof)
                            }
                        },
                        Err(e) => Err(e),
                    }
                } else if name == "interface"@ {
                    match spec_parse_interface_body(evs, pos + 1, Seq::empty()) {
                        Ok((i, p2)) => {
                            if pos + 1 <= p2 && p2 <= evs.len() {
                                spec_parse_neww_body(evs, p2, meta, i)
                            } else {
                                Err(ParseErrorV::UnexpectedEof)
                            }
                        },
                        Err(e) => Err(e),
                    }
                } else {
                    Err(ParseErrorV::UnexpectedStartTag { got: name })
                }
            },
            EventV::Empty { .. } => Err(ParseErrorV::UnexpectedEmptyTag),
            EventV::Text { .. } => Err(ParseErrorV::UnexpectedText),
            EventV::Comment => spec_parse_neww_body(evs, pos + 1, meta, interface),
            EventV::Other => spec_parse_neww_body(evs, pos + 1, meta, interface),
            EventV::End { name } => {
                if name == "neww"@ {
                    Ok((NewwV { meta, interface }, pos + 1))
                } else {
                    Err(ParseErrorV::UnexpectedEndTag { got: name, expected: "neww"@ })
                }
            },
        }
    }
}

/// The empty meta section a document without `meta` keeps.
pub open spec fn spec_empty_meta() -> MetaV {
    MetaV { scripts: Seq::empty() }
}

/// The empty interface section a document without `interface` keeps.
pub open spec fn spec_empty_interface() -> InterfaceV {
    InterfaceV { windows: Seq::empty() }
}

/// Top level: skip non-structural events until the root tag, which
/// must be a start tag named `neww`; anything else is an error, as is
/// reaching the end of input first.  Events after the root tag closes
/// are not examined.
pub open spec fn spec_parse_top(evs: Seq<EventV>, pos: int) -> Result<(NewwV, int), ParseErrorV>
    decreases evs.len() - pos,
{
    if pos < 0 || pos >= evs.len() {
        Err(ParseErrorV::UnexpectedEof)
    } else {
        match evs[pos] {
            EventV::Start { name, .. } => {
                if name == "neww"@ {
                    spec_parse_neww_body(evs, pos + 1, spec_empty_meta(), spec_empty_interface())
                } else {
                    Err(ParseErrorV::UnexpectedStartTag { got: name })
                }
            },
            EventV::Empty { .. } => Err(ParseErrorV::UnexpectedEmptyTag),
            EventV::Text { .. } => Err(ParseErrorV::UnexpectedText),
            EventV::Comment => spec_parse_top(evs, pos + 1),
            EventV::Other => spec_parse_top(evs, pos + 1),
            EventV::End { name } => {
                Err(ParseErrorV::UnexpectedEndTag { got: name, expected: "neww"@ })
            },
        }
    }
}

/// What a whole event stream parses to.
pub open spec fn spec_parse_neww(evs: Seq<EventV>) -> Result<NewwV, ParseErrorV> {
    match spec_parse_top(evs, 0) {
        Ok((d, _)) => Ok(d),
        Err(e) => Err(e),
    }
}

/// A bare widget subtree: skip non-structural events; the first start
/// or empty tag is parsed as one object; the end of input yields
/// nothing; a stray end tag or text is an error.
pub open spec fn spec_parse_ui(evs: Seq<EventV>, pos: int) -> Result<
    Option<ObjectV>,
    ParseErrorV,
>
    decreases evs.len() - pos,
{
    if pos < 0 || pos >= evs.len() {
        Ok(None)
    } else {
        match evs[pos] {
            EventV::Start { name, attrs } => {
                match spec_parse_object(evs, pos + 1, name, attrs) {
                    Ok((obj, _)) => Ok(Some(obj)),
                    Err(e) => Err(e),
                }
            },
            EventV::Empty { name, attrs } => Ok(Some(spec_object_from_tag(name, attrs))),
            EventV::Text { .. } => Err(ParseErrorV::UnexpectedText),
            EventV::Comment => spec_parse_ui(evs, pos + 1),
            EventV::Other => spec_parse_ui(evs, pos + 1),
            EventV::End { name } => {
                Err(ParseErrorV::UnexpectedEndTag { got: name, expected: Seq::empty() })
            },
        }
    }
}

} // verus!
