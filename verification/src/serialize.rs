//! The builder-XML serializer.
//!
//! A widget subtree is re-emitted as toolkit-builder XML: an
//! `object` element per node, its `id` attribute only when present,
//! its `class` always, one `property` child element per property and
//! one `child` element per nested object, in order; an object with
//! neither properties nor children closes itself with no body at
//! all.  The exact output is pinned by the spec functions here.

use vstd::prelude::*;
use vstd::std_specs::iter::IteratorSpec;
use vstd::string::StringExecFns;

use crate::model::{Interface, InterfaceV, Object, ObjectV, PropertyV};
use crate::parse::push_char;

verus! {

/// How one character is written inside an attribute value or text
/// run: the five XML-special characters become entity references.
pub open spec fn spec_escape_char(c: char) -> Seq<char> {
    if c == '<' {
        "&lt;"@
    } else if c == '>' {
        "&gt;"@
    } else if c == '&' {
        "&amp;"@
    } else if c == '\'' {
        "&apos;"@
    } else if c == '"' {
        "&quot;"@
    } else {
        seq![c]
    }
}

/// A whole character sequence, escaped.
pub open spec fn spec_escape(s: Seq<char>) -> Seq<char>
    decreases s.len(),
{
    if s.len() == 0 {
        Seq::empty()
    } else {
        spec_escape_char(s[0]) + spec_escape(s.skip(1))
    }
}

/// One property element.
pub open spec fn spec_serialize_property(p: PropertyV) -> Seq<char> {
    "<property name=\""@ + spec_escape(p.name) + "\">"@ + spec_escape(p.value) + "</property>"@
}

/// The property elements from index `i` on, in order.
pub open spec fn spec_serialize_properties(ps: Seq<PropertyV>, i: int) -> Seq<char>
    decreases ps.len() - i,
{
    if i < 0 || i >= ps.len() {
        Seq::empty()
    } else {
        spec_serialize_property(ps[i]) + spec_serialize_properties(ps, i + 1)
    }
}

/// One object element: `id` only when present, `class` always, then
/// the property and child elements, or a self-closing tag when there
/// are none.
pub open spec fn spec_serialize_object(o: ObjectV) -> Seq<char>
    decreases o, 0int,
{
    "<object"@ + (match o.id {
        Some(id) => " id=\""@ + spec_escape(id) + "\""@,
        None => Seq::<char>::empty(),
    }) + " class=\""@ + spec_escape(o.class) + "\""@ + (if o.properties.len() == 0
        && o.children.len() == 0 {
        "/>"@
    } else {
        ">"@ + spec_serialize_properties(o.properties, 0) + spec_serialize_children(o.children, 0)
            + "</object>"@
    })
}

/// The child elements from index `i` on, each wrapping one object.
pub open spec fn spec_serialize_children(cs: Seq<ObjectV>, i: int) -> Seq<char>
    decreases cs, cs.len() - i,
{
    if i < 0 || i >= cs.len() {
        Seq::empty()
    } else {
        "<child>"@ + spec_serialize_object(cs[i]) + "</child>"@ + spec_serialize_children(
            cs,
            i + 1,
        )
    }
}

/// The window elements from index `i` on.
pub open spec fn spec_serialize_windows(ws: Seq<ObjectV>, i: int) -> Seq<char>
    decreases ws.len() - i,
{
    if i < 0 || i >= ws.len() {
        Seq::empty()
    } else {
        spec_serialize_object(ws[i]) + spec_serialize_windows(ws, i + 1)
    }
}

/// A whole interface section: all windows under one `interface`
/// element, self-closing when there is no window.
pub open spec fn spec_serialize_interface(iv: InterfaceV) -> Seq<char> {
    if iv.windows.len() == 0 {
        "<interface/>"@
    } else {
        "<interface>"@ + spec_serialize_windows(iv.windows, 0) + "</interface>"@
    }
}

/// Escaping distributes over concatenation.
proof fn lemma_escape_concat(a: Seq<char>, b: Seq<char>)
    ensures
        spec_escape(a + b) == spec_escape(a) + spec_escape(b),
    decreases a.len(),
{
    if a.len() == 0 {
        assert(a + b =~= b);
        assert(spec_escape(a) + spec_escape(b) =~= spec_escape(b));
    } else {
        lemma_escape_concat(a.skip(1), b);
        assert((a + b).skip(1) =~= a.skip(1) + b);
        assert((a + b).len() > 0);
        assert((a + b)[0] == a[0]);
        assert(spec_escape_char(a[0]) + (spec_escape(a.skip(1)) + spec_escape(b)) =~= (
        spec_escape_char(a[0]) + spec_escape(a.skip(1))) + spec_escape(b));
    }
}

/// Append the escaped form of `s` to `out`.
fn escape_append(out: &mut String, s: &String)
    ensures
        final(out)@ == old(out)@ + spec_escape(s@),
{
    let mut it = s.as_str().chars();
    let ghost done: int = 0;
    loop
        invariant
            0 <= done <= s@.len(),
            it.remaining() =~= s@.skip(done),
            out@ =~= old(out)@ + spec_escape(s@.take(done)),
        ensures
            out@ =~= old(out)@ + spec_escape(s@),
        decreases s@.len() - done,
    {
        match it.next() {
            Some(c) => {
                proof {
                    assert(c == s@.skip(done)[0]);
                    assert(c == s@[done]);
                }
                if c == '<' {
                    out.append("&lt;");
                } else if c == '>' {
                    out.append("&gt;");
                } else if c == '&' {
                    out.append("&amp;");
                } else if c == '\'' {
                    out.append("&apos;");
                } else if c == '"' {
                    out.append("&quot;");
                } else {
                    push_char(out, c);
                }
                proof {
                    assert(s@.skip(done).drop_first() =~= s@.skip(done + 1));
                    lemma_escape_concat(s@.take(done), seq![s@[done]]);
                    assert(s@.take(done) + seq![s@[done]] =~= s@.take(done + 1));
                    assert(seq![s@[done]].skip(1) =~= Seq::<char>::empty());
                    assert(spec_escape(Seq::<char>::empty()) =~= Seq::<char>::empty());
                    assert(spec_escape_char(s@[done]) + Seq::<char>::empty()
                        =~= spec_escape_char(s@[done]));
                    assert(spec_escape(seq![s@[done]]) =~= spec_escape_char(s@[done]));
                    assert(out@ =~= old(out)@ + spec_escape(s@.take(done + 1)));
                    done = done + 1;
                }
            },
            None => {
                proof {
                    assert(s@.skip(done).len() == 0);
                    assert(done == s@.len());
                    assert(s@.take(done) =~= s@);
                }
                break ;
            },
        }
    }
}

/// Serialize one object subtree as builder XML.
pub fn serialize_object(object: &Object) -> (r: String)
    ensures
        r@ == spec_serialize_object(object.model()),
    decreases object,
{
    let mut out = "<object".to_owned();
    if let Some(id) = &object.id {
        out.append(" id=\"");
        escape_append(&mut out, id);
        out.append("\"");
    }
    out.append(" class=\"");
    escape_append(&mut out, &object.class);
    out.append("\"");
    if object.properties.len() == 0 && object.children.len() == 0 {
        out.append("/>");
        proof {
            assert(out@ =~= spec_serialize_object(object.model()));
        }
        return out;
    }
    out.append(">");
    let ghost head = out@;
    let ghost props = object.model().properties;
    let np = object.properties.len();
    let mut i: usize = 0;
    while i < np
        invariant
            np == object.properties@.len(),
            0 <= i <= np,
            props == object.model().properties,
            props.len() == np,
            out@ + spec_serialize_properties(props, i as int) =~= head + spec_serialize_properties(
                props,
                0,
            ),
        decreases np - i,
    {
        let p = &object.properties[i];
        proof {
            assert(props[i as int] == PropertyV { name: p.name@, value: p.value@ });
        }
        let ghost before = out@;
        out.append("<property name=\"");
        escape_append(&mut out, &p.name);
        out.append("\">");
        escape_append(&mut out, &p.value);
        out.append("</property>");
        proof {
            assert(out@ =~= before + spec_serialize_property(props[i as int]));
            assert(out@ + spec_serialize_properties(props, i + 1) =~= before
                + (spec_serialize_property(props[i as int]) + spec_serialize_properties(
                props,
                i + 1,
            )));
            assert(spec_serialize_property(props[i as int]) + spec_serialize_properties(
                props,
                i + 1,
            ) =~= spec_serialize_properties(props, i as int));
        }
        i = i + 1;
    }
    let ghost head2 = out@;
    let ghost childs = object.model().children;
    let nc = object.children.len();
    let mut j: usize = 0;
    while j < nc
        invariant
            nc == object.children@.len(),
            0 <= j <= nc,
            childs == object.model().children,
            childs.len() == nc,
            out@ + spec_serialize_children(childs, j as int) =~= head2 + spec_serialize_children(
                childs,
                0,
            ),
        decreases nc - j,
    {
        proof {
            assert(childs[j as int] == object.children@[j as int].object.model());
            assert(decreases_to!(object => object.children));
            assert(decreases_to!(object.children => object.children@[j as int]));
            assert(decreases_to!(object.children@[j as int] => object.children@[
                j as int
            ].object));
        }
        let ghost before = out@;
        out.append("<child>");
        let inner = serialize_object(&object.children[j].object);
        out.append(inner.as_str());
        out.append("</child>");
        proof {
            assert(out@ =~= before + ("<child>"@ + spec_serialize_object(childs[j as int])
                + "</child>"@));
            assert(out@ + spec_serialize_children(childs, j + 1) =~= before + (("<child>"@
                + spec_serialize_object(childs[j as int]) + "</child>"@)
                + spec_serialize_children(childs, j + 1)));
            assert(("<child>"@ + spec_serialize_object(childs[j as int]) + "</child>"@)
                + spec_serialize_children(childs, j + 1) =~= spec_serialize_children(
                childs,
                j as int,
            ));
        }
        j = j + 1;
    }
    out.append("</object>");
    proof {
        assert(spec_serialize_properties(props, np as int) =~= Seq::<char>::empty());
        assert(spec_serialize_children(childs, nc as int) =~= Seq::<char>::empty());
        assert(out@ =~= spec_serialize_object(object.model()));
    }
    out
}

/// Serialize a whole interface section as builder XML.
pub fn serialize_interface(interface: &Interface) -> (r: String)
    ensures
        r@ == spec_serialize_interface(interface.deep_view()),
{
    let n = interface.windows.len();
    if n == 0 {
        return "<interface/>".to_owned();
    }
    let mut out = "<interface>".to_owned();
    let ghost head = out@;
    let ghost ws = interface.deep_view().windows;
    let mut i: usize = 0;
    while i < n
        invariant
            n == interface.windows@.len(),
            0 < n,
            0 <= i <= n,
            ws == interface.deep_view().windows,
            ws.len() == n,
            out@ + spec_serialize_windows(ws, i as int) =~= head + spec_serialize_windows(ws, 0),
        decreases n - i,
    {
        proof {
            assert(ws[i as int] == interface.windows@[i as int].model());
        }
        let ghost before = out@;
        let inner = serialize_object(&interface.windows[i]);
        out.append(inner.as_str());
        proof {
            assert(out@ + spec_serialize_windows(ws, i + 1) =~= before + (spec_serialize_object(
                ws[i as int],
            ) + spec_serialize_windows(ws, i + 1)));
            assert(spec_serialize_object(ws[i as int]) + spec_serialize_windows(ws, i + 1)
                =~= spec_serialize_windows(ws, i as int));
        }
        i = i + 1;
    }
    out.append("</interface>");
    proof {
        assert(spec_serialize_windows(ws, n as int) =~= Seq::<char>::empty());
        assert(out@ =~= head + spec_serialize_windows(ws, 0) + "</interface>"@);
    }
    out
}

} // verus!
