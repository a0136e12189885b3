//! Stated laws of the library, proved once and for all inputs.

use vstd::prelude::*;

use crate::events::{AttrV, EventV};
use crate::grammar::{
    spec_class_of, spec_object_from_tag, spec_parse_interface_body, spec_parse_meta_body,
    spec_parse_object, spec_parse_object_body, spec_place_window, spec_upper_char,
};
use crate::errors::ParseErrorV;
use crate::model::{InterfaceV, ObjectV, PropertyV};
use crate::serialize::{spec_escape, spec_serialize_object};

verus! {

/// Windows placed one after the other, in document order, by the
/// primary-window rule.
pub open spec fn spec_place_all(ws: Seq<ObjectV>) -> Seq<ObjectV>
    decreases ws.len(),
{
    if ws.len() == 0 {
        Seq::empty()
    } else {
        spec_place_window(spec_place_all(ws.drop_last()), ws.last())
    }
}

/// Law: placing windows none of which is the primary window keeps
/// them exactly in document order.
pub proof fn lemma_no_primary_keeps_order(ws: Seq<ObjectV>)
    requires
        forall|j: int| 0 <= j < ws.len() ==> ws[j].id != Some("main"@),
    ensures
        spec_place_all(ws) =~= ws,
    decreases ws.len(),
{
    if ws.len() > 0 {
        assert forall|j: int| 0 <= j < ws.drop_last().len() implies ws.drop_last()[j].id != Some(
            "main"@,
        ) by {
            assert(ws.drop_last()[j] == ws[j]);
        }
        lemma_no_primary_keeps_order(ws.drop_last());
        assert(ws[ws.len() - 1].id != Some("main"@));
        assert(ws.drop_last().push(ws.last()) =~= ws);
    }
}

/// Law: in a sequence of parsed windows of which exactly the one at
/// position `k` is the primary window (`id="main"`), the placement
/// rule puts that window at index 0 and keeps the remaining windows
/// in their original relative order after it.
pub proof fn lemma_primary_window_first(ws: Seq<ObjectV>, k: int)
    requires
        0 <= k < ws.len(),
        ws[k].id == Some("main"@),
        forall|j: int| 0 <= j < ws.len() && j != k ==> ws[j].id != Some("main"@),
    ensures
        spec_place_all(ws) =~= seq![ws[k]] + ws.remove(k),
    decreases ws.len(),
{
    if k == ws.len() - 1 {
        assert forall|j: int| 0 <= j < ws.drop_last().len() implies ws.drop_last()[j].id != Some(
            "main"@,
        ) by {
            assert(ws.drop_last()[j] == ws[j]);
        }
        lemma_no_primary_keeps_order(ws.drop_last());
        assert(ws.last().id == Some("main"@));
        assert(ws.drop_last().insert(0, ws.last()) =~= seq![ws[k]] + ws.remove(k));
    } else {
        assert forall|j: int| 0 <= j < ws.drop_last().len() && j != k implies ws.drop_last()[
            j
        ].id != Some("main"@) by {
            assert(ws.drop_last()[j] == ws[j]);
        }
        assert(ws.drop_last()[k] == ws[k]);
        lemma_primary_window_first(ws.drop_last(), k);
        assert(ws.last().id != Some("main"@));
        assert((seq![ws[k]] + ws.drop_last().remove(k)).push(ws.last()) =~= seq![ws[k]]
            + ws.remove(k));
    }
}


/// The window objects an interface body holds, in document order,
/// before the placement rule is applied; errors exactly as the
/// interface grammar errs.
pub open spec fn spec_interface_objects(evs: Seq<EventV>, pos: int) -> Result<
    (Seq<ObjectV>, int),
    ParseErrorV,
>
    decreases evs.len() - pos,
{
    if pos < 0 || pos >= evs.len() {
        Err(ParseErrorV::UnexpectedEof)
    } else {
        match evs[pos] {
            EventV::Start { name, attrs } => {
                match spec_parse_object(evs, pos + 1, name, attrs) {
                    Ok((obj, p2)) => {
                        if obj.class == "GtkWindow"@ {
                            if pos + 1 <= p2 && p2 <= evs.len() {
                                match spec_interface_objects(evs, p2) {
                                    Ok((rest, p)) => Ok((seq![obj] + rest, p)),
                                    Err(e) => Err(e),
                                }
                            } else {
                                Err(ParseErrorV::UnexpectedEof)
                            }
                        } else {
                            Err(ParseErrorV::ClassNotWindow { got: obj.class })
                        }
                    },
                    Err(e) => Err(e),
                }
            },
            EventV::Empty { name, attrs } => {
                let obj = spec_object_from_tag(name, attrs);
                if obj.class == "GtkWindow"@ {
                    match spec_interface_objects(evs, pos + 1) {
                        Ok((rest, p)) => Ok((seq![obj] + rest, p)),
                        Err(e) => Err(e),
                    }
                } else {
                    Err(ParseErrorV::ClassNotWindow { got: obj.class })
                }
            },
            EventV::Text { .. } => Err(ParseErrorV::UnexpectedText),
            EventV::Comment => spec_interface_objects(evs, pos + 1),
            EventV::Other => spec_interface_objects(evs, pos + 1),
            EventV::End { name } => {
                if name == "interface"@ {
                    Ok((Seq::empty(), pos + 1))
                } else {
                    Err(ParseErrorV::UnexpectedEndTag { got: name, expected: "interface"@ })
                }
            },
        }
    }
}

/// Windows placed one after the other onto an already placed
/// sequence, in document order.
pub open spec fn spec_place_fold(ws0: Seq<ObjectV>, objs: Seq<ObjectV>) -> Seq<ObjectV>
    decreases objs.len(),
{
    if objs.len() == 0 {
        ws0
    } else {
        spec_place_window(spec_place_fold(ws0, objs.drop_last()), objs.last())
    }
}

/// Placing a sequence from nothing is the fold from the empty one.
proof fn lemma_place_all_is_fold(objs: Seq<ObjectV>)
    ensures
        spec_place_all(objs) == spec_place_fold(Seq::empty(), objs),
    decreases objs.len(),
{
    if objs.len() > 0 {
        lemma_place_all_is_fold(objs.drop_last());
    }
}

/// The fold peels its first window off the front.
proof fn lemma_place_fold_cons(ws0: Seq<ObjectV>, x: ObjectV, rest: Seq<ObjectV>)
    ensures
        spec_place_fold(ws0, seq![x] + rest) == spec_place_fold(
            spec_place_window(ws0, x),
            rest,
        ),
    decreases rest.len(),
{
    if rest.len() == 0 {
        assert(seq![x] + rest =~= seq![x]);
        assert(seq![x].drop_last() =~= Seq::<ObjectV>::empty());
        assert(seq![x].last() == x);
        assert(spec_place_fold(ws0, Seq::empty()) == ws0);
        assert(spec_place_fold(ws0, seq![x].drop_last()) == spec_place_fold(ws0, Seq::empty()));
        assert(spec_place_fold(spec_place_window(ws0, x), rest) == spec_place_window(ws0, x));
    } else {
        lemma_place_fold_cons(ws0, x, rest.drop_last());
        assert((seq![x] + rest).drop_last() =~= seq![x] + rest.drop_last());
        assert((seq![x] + rest).last() == rest.last());
        assert(spec_place_fold(ws0, (seq![x] + rest).drop_last()) == spec_place_fold(
            ws0,
            seq![x] + rest.drop_last(),
        ));
    }
}

/// Reading an interface body is exactly the placement fold of its
/// window objects, in document order, onto what was placed before.
proof fn lemma_interface_is_placement(evs: Seq<EventV>, pos: int, ws0: Seq<ObjectV>)
    ensures
        (match spec_interface_objects(evs, pos) {
            Ok(op) => spec_parse_interface_body(evs, pos, ws0) == Ok::<
                (InterfaceV, int),
                ParseErrorV,
            >((InterfaceV { windows: spec_place_fold(ws0, op.0) }, op.1)),
            Err(e) => spec_parse_interface_body(evs, pos, ws0) == Err::<
                (InterfaceV, int),
                ParseErrorV,
            >(e),
        }),
    decreases evs.len() - pos,
{
    if 0 <= pos && pos < evs.len() {
        match evs[pos] {
            EventV::Start { name, attrs } => {
                match spec_parse_object(evs, pos + 1, name, attrs) {
                    Ok((obj, p2)) => {
                        if obj.class == "GtkWindow"@ && pos + 1 <= p2 && p2 <= evs.len() {
                            lemma_interface_is_placement(evs, p2, spec_place_window(ws0, obj));
                            match spec_interface_objects(evs, p2) {
                                Ok((rest, p)) => {
                                    lemma_place_fold_cons(ws0, obj, rest);
                                },
                                Err(_) => {},
                            }
                        }
                    },
                    Err(_) => {},
                }
            },
            EventV::Empty { name, attrs } => {
                let obj = spec_object_from_tag(name, attrs);
                if obj.class == "GtkWindow"@ {
                    lemma_interface_is_placement(evs, pos + 1, spec_place_window(ws0, obj));
                    match spec_interface_objects(evs, pos + 1) {
                        Ok((rest, p)) => {
                            lemma_place_fold_cons(ws0, obj, rest);
                        },
                        Err(_) => {},
                    }
                }
            },
            EventV::Comment => {
                lemma_interface_is_placement(evs, pos + 1, ws0);
            },
            EventV::Other => {
                lemma_interface_is_placement(evs, pos + 1, ws0);
            },
            _ => {},
        }
    }
}

/// Law: parsing an interface body whose window elements parse, in
/// document order, to `objs`, exactly one of which (at position `k`)
/// is the primary window, yields that window at index 0 and the
/// remaining ones in their original relative order immediately after.
pub proof fn lemma_interface_primary_first(
    evs: Seq<EventV>,
    pos: int,
    objs: Seq<ObjectV>,
    p: int,
    k: int,
)
    requires
        spec_interface_objects(evs, pos) == Ok::<(Seq<ObjectV>, int), ParseErrorV>((objs, p)),
        0 <= k < objs.len(),
        objs[k].id == Some("main"@),
        forall|j: int| 0 <= j < objs.len() && j != k ==> objs[j].id != Some("main"@),
    ensures
        (spec_parse_interface_body(evs, pos, Seq::empty()) == Ok::<
            (InterfaceV, int),
            ParseErrorV,
        >((InterfaceV { windows: seq![objs[k]] + objs.remove(k) }, p))),
{
    lemma_interface_is_placement(evs, pos, Seq::empty());
    lemma_place_all_is_fold(objs);
    lemma_primary_window_first(objs, k);
    assert(spec_place_fold(Seq::empty(), objs) =~= seq![objs[k]] + objs.remove(k));
    assert(InterfaceV { windows: spec_place_fold(Seq::empty(), objs) } =~~= InterfaceV {
        windows: seq![objs[k]] + objs.remove(k),
    });
}

/// Law: of any number of attributes, the last one named `id` decides
/// the object's id, whatever stands before or after it.
pub proof fn lemma_last_id_wins(attrs: Seq<AttrV>, k: int)
    requires
        0 <= k < attrs.len(),
        attrs[k].name == "id"@,
        forall|j: int| k < j < attrs.len() ==> attrs[j].name != "id"@,
    ensures
        crate::grammar::spec_fold_attrs(attrs).0 == Some(attrs[k].value),
    decreases attrs.len(),
{
    if k == attrs.len() - 1 {
        assert(attrs.last() == attrs[k]);
    } else {
        assert(attrs.last().name != "id"@);
        assert(attrs.drop_last()[k] == attrs[k]);
        assert forall|j: int| k < j < attrs.drop_last().len() implies attrs.drop_last()[j].name
            != "id"@ by {
            assert(attrs.drop_last()[j] == attrs[j]);
        }
        lemma_last_id_wins(attrs.drop_last(), k);
    }
}

/// Law: any number of attributes none of which is named `id` yields
/// no id and exactly one property per attribute, names and values
/// kept, in document order.
pub proof fn lemma_plain_attrs_keep_order(attrs: Seq<AttrV>)
    requires
        forall|j: int| 0 <= j < attrs.len() ==> attrs[j].name != "id"@,
    ensures
        crate::grammar::spec_fold_attrs(attrs).0 is None,
        crate::grammar::spec_fold_attrs(attrs).1.len() == attrs.len(),
        forall|j: int| 0 <= j < attrs.len() ==> crate::grammar::spec_fold_attrs(attrs).1[j]
            == (PropertyV { name: attrs[j].name, value: attrs[j].value }),
    decreases attrs.len(),
{
    if attrs.len() > 0 {
        assert forall|j: int| 0 <= j < attrs.drop_last().len() implies attrs.drop_last()[j].name
            != "id"@ by {
            assert(attrs.drop_last()[j] == attrs[j]);
        }
        lemma_plain_attrs_keep_order(attrs.drop_last());
        assert(attrs.last().name != "id"@);
        assert forall|j: int| 0 <= j < attrs.len() implies crate::grammar::spec_fold_attrs(
            attrs,
        ).1[j] == (PropertyV { name: attrs[j].name, value: attrs[j].value }) by {
            if j < attrs.len() - 1 {
                assert(attrs.drop_last()[j] == attrs[j]);
            } else {
                assert(attrs[j] == attrs.last());
            }
        }
    }
}

/// Law: no `id` attribute ever enters the properties - every
/// property the classification yields carries another name.
pub proof fn lemma_no_id_in_properties(attrs: Seq<AttrV>)
    ensures
        forall|j: int|
            0 <= j < crate::grammar::spec_fold_attrs(attrs).1.len()
                ==> #[trigger] crate::grammar::spec_fold_attrs(attrs).1[j].name != "id"@,
    decreases attrs.len(),
{
    if attrs.len() > 0 {
        lemma_no_id_in_properties(attrs.drop_last());
        let prev = crate::grammar::spec_fold_attrs(attrs.drop_last()).1;
        if attrs.last().name != "id"@ {
            assert forall|j: int| 0 <= j < crate::grammar::spec_fold_attrs(attrs).1.len() implies
                #[trigger] crate::grammar::spec_fold_attrs(attrs).1[j].name != "id"@ by {
                if j < prev.len() {
                    assert(crate::grammar::spec_fold_attrs(attrs).1[j] == prev[j]);
                } else {
                    assert(crate::grammar::spec_fold_attrs(attrs).1[j] == (PropertyV {
                        name: attrs.last().name,
                        value: attrs.last().value,
                    }));
                }
            }
        }
    }
}

/// Law: a tag with two attributes, neither named `id`, yields exactly
/// those two properties, in that order, and no id.
pub proof fn lemma_attrs_two_plain(name: Seq<char>, a1: AttrV, a2: AttrV)
    requires
        a1.name != "id"@,
        a2.name != "id"@,
    ensures
        spec_object_from_tag(name, seq![a1, a2]).properties =~= seq![
            PropertyV { name: a1.name, value: a1.value },
            PropertyV { name: a2.name, value: a2.value },
        ],
        spec_object_from_tag(name, seq![a1, a2]).id is None,
{
    lemma_fold_two_attrs(a1, a2);
}

/// Law: of a tag's two attributes, one named `id` is excluded from
/// the properties and becomes the object's id instead, whichever of
/// the two it is.
pub proof fn lemma_attrs_one_id(name: Seq<char>, a1: AttrV, a2: AttrV)
    requires
        a1.name == "id"@ <==> a2.name != "id"@,
    ensures
        a1.name == "id"@ ==> spec_object_from_tag(name, seq![a1, a2]).id == Some(a1.value)
            && spec_object_from_tag(name, seq![a1, a2]).properties =~= seq![
            PropertyV { name: a2.name, value: a2.value },
        ],
        a2.name == "id"@ ==> spec_object_from_tag(name, seq![a1, a2]).id == Some(a2.value)
            && spec_object_from_tag(name, seq![a1, a2]).properties =~= seq![
            PropertyV { name: a1.name, value: a1.value },
        ],
{
    lemma_fold_two_attrs(a1, a2);
}

/// How the attribute classification unfolds on one and on two
/// attributes.
proof fn lemma_fold_two_attrs(a1: AttrV, a2: AttrV)
    ensures
        crate::grammar::spec_fold_attrs(seq![a1, a2]) == ({
            let first = if a1.name == "id"@ {
                (Some(a1.value), Seq::<PropertyV>::empty())
            } else {
                (None::<Seq<char>>, seq![PropertyV { name: a1.name, value: a1.value }])
            };
            if a2.name == "id"@ {
                (Some(a2.value), first.1)
            } else {
                (first.0, first.1.push(PropertyV { name: a2.name, value: a2.value }))
            }
        }),
        seq![PropertyV { name: a1.name, value: a1.value }].push(
            PropertyV { name: a2.name, value: a2.value },
        ) =~= seq![
            PropertyV { name: a1.name, value: a1.value },
            PropertyV { name: a2.name, value: a2.value },
        ],
        Seq::<PropertyV>::empty().push(PropertyV { name: a2.name, value: a2.value }) =~= seq![
            PropertyV { name: a2.name, value: a2.value },
        ],
{
    let e: Seq<AttrV> = Seq::empty();
    let s1 = seq![a1];
    let s = seq![a1, a2];
    assert(crate::grammar::spec_fold_attrs(e) == (
        None::<Seq<char>>,
        Seq::<PropertyV>::empty(),
    ));
    assert(s1.drop_last() =~= e);
    assert(s1.last() == a1);
    assert(crate::grammar::spec_fold_attrs(s1.drop_last()) == crate::grammar::spec_fold_attrs(e));
    assert(s.drop_last() =~= s1);
    assert(s.last() == a2);
    assert(crate::grammar::spec_fold_attrs(s.drop_last()) == crate::grammar::spec_fold_attrs(s1));
}

/// Law: the class derived from a non-empty tag name is `Gtk`, then
/// the first character upper-cased, then the remainder of the name
/// untouched - whatever the name's case or shape.
pub proof fn lemma_class_shape(name: Seq<char>)
    requires
        name.len() > 0,
    ensures
        spec_class_of(name).len() == name.len() + 3,
        spec_class_of(name).take(3) =~= "Gtk"@,
        spec_class_of(name)[3] == spec_upper_char(name[0]),
        spec_class_of(name).skip(4) =~= name.skip(1),
{
    reveal_strlit("Gtk");
    assert(spec_class_of(name) == "Gtk"@ + seq![spec_upper_char(name[0])] + name.skip(1));
}

/// Every node of this tree carries a class of at least three
/// characters beginning with `Gtk`, so no class is ever empty.
pub open spec fn spec_tree_classes_ok(o: ObjectV) -> bool
    decreases o, 0int,
{
    o.class.len() >= 3 && o.class.take(3) == "Gtk"@ && spec_forest_classes_ok(o.children, 0)
}

/// Every tree of this forest, from index `i` on, has well-formed
/// classes.
pub open spec fn spec_forest_classes_ok(cs: Seq<ObjectV>, i: int) -> bool
    decreases cs, cs.len() - i,
{
    if i < 0 || i >= cs.len() {
        true
    } else {
        spec_tree_classes_ok(cs[i]) && spec_forest_classes_ok(cs, i + 1)
    }
}

/// A well-formed forest stays well-formed when a well-formed tree is
/// appended.
proof fn lemma_forest_push(cs: Seq<ObjectV>, i: int, x: ObjectV)
    requires
        spec_forest_classes_ok(cs, i),
        spec_tree_classes_ok(x),
    ensures
        spec_forest_classes_ok(cs.push(x), i),
    decreases cs.len() - i,
{
    if 0 <= i && i < cs.len() {
        assert(cs.push(x)[i] == cs[i]);
        lemma_forest_push(cs, i + 1, x);
    } else if i == cs.len() {
        assert(cs.push(x)[i] == x);
        assert(spec_forest_classes_ok(cs.push(x), i + 1));
    }
}

/// The object a tag alone denotes has a well-formed class: `Gtk` and
/// the tag name.
proof fn lemma_tag_object_wf(name: Seq<char>, attrs: Seq<AttrV>)
    ensures
        spec_tree_classes_ok(spec_object_from_tag(name, attrs)),
{
    reveal_strlit("Gtk");
    assert(spec_class_of(name).len() >= 3);
    assert(spec_class_of(name).take(3) =~= "Gtk"@);
    assert(spec_object_from_tag(name, attrs).children =~= Seq::<ObjectV>::empty());
    assert(spec_forest_classes_ok(Seq::<ObjectV>::empty(), 0));
}

/// Law: every object the grammar yields carries a non-empty class,
/// at every depth of the tree - it always begins with `Gtk`.
pub proof fn lemma_parsed_classes_never_empty(
    evs: Seq<EventV>,
    pos: int,
    name: Seq<char>,
    attrs: Seq<AttrV>,
)
    ensures
        spec_parse_object(evs, pos, name, attrs) matches Ok(sv)
            ==> spec_tree_classes_ok(sv.0),
    decreases evs.len() - pos, 1int,
{
    lemma_tag_object_wf(name, attrs);
    lemma_parsed_body_classes(evs, pos, name, spec_object_from_tag(name, attrs));
}

/// The object-body level of the law above: reading a body preserves
/// well-formed classes.
proof fn lemma_parsed_body_classes(
    evs: Seq<EventV>,
    pos: int,
    name: Seq<char>,
    obj: ObjectV,
)
    requires
        spec_tree_classes_ok(obj),
    ensures
        spec_parse_object_body(evs, pos, name, obj) matches Ok(sv)
            ==> spec_tree_classes_ok(sv.0),
    decreases evs.len() - pos, 0int,
{
    if 0 <= pos && pos < evs.len() {
        match evs[pos] {
            EventV::Start { name: cname, attrs: cattrs } => {
                match spec_parse_object(evs, pos + 1, cname, cattrs) {
                    Ok((child, p2)) => {
                        if pos + 1 <= p2 && p2 <= evs.len() {
                            lemma_parsed_classes_never_empty(evs, pos + 1, cname, cattrs);
                            lemma_forest_push(obj.children, 0, child);
                            let obj2 = ObjectV {
                                id: obj.id,
                                class: obj.class,
                                properties: obj.properties,
                                children: obj.children.push(child),
                            };
                            lemma_parsed_body_classes(evs, p2, name, obj2);
                        }
                    },
                    Err(_) => {},
                }
            },
            EventV::Empty { name: cname, attrs: cattrs } => {
                lemma_tag_object_wf(cname, cattrs);
                lemma_forest_push(obj.children, 0, spec_object_from_tag(cname, cattrs));
                let obj2 = ObjectV {
                    id: obj.id,
                    class: obj.class,
                    properties: obj.properties,
                    children: obj.children.push(spec_object_from_tag(cname, cattrs)),
                };
                lemma_parsed_body_classes(evs, pos + 1, name, obj2);
            },
            EventV::Text { text } => {
                let obj2 = ObjectV {
                    id: obj.id,
                    class: obj.class,
                    properties: obj.properties.push(
                        PropertyV { name: "label"@, value: text },
                    ),
                    children: obj.children,
                };
                lemma_parsed_body_classes(evs, pos + 1, name, obj2);
            },
            EventV::Comment => {
                lemma_parsed_body_classes(evs, pos + 1, name, obj);
            },
            EventV::Other => {},
            EventV::End { .. } => {},
        }
    }
}

/// Every window of this sequence, from index `i` on, is a
/// `GtkWindow` object whose whole tree has well-formed classes.
pub open spec fn spec_windows_wf(ws: Seq<ObjectV>, i: int) -> bool
    decreases ws.len() - i,
{
    if i < 0 || i >= ws.len() {
        true
    } else {
        ws[i].class == "GtkWindow"@ && spec_tree_classes_ok(ws[i]) && spec_windows_wf(ws, i + 1)
    }
}

/// A well-formed window sequence stays well-formed when a well-formed
/// window is appended.
proof fn lemma_windows_wf_push(ws: Seq<ObjectV>, i: int, x: ObjectV)
    requires
        spec_windows_wf(ws, i),
        x.class == "GtkWindow"@,
        spec_tree_classes_ok(x),
    ensures
        spec_windows_wf(ws.push(x), i),
    decreases ws.len() - i,
{
    if 0 <= i && i < ws.len() {
        assert(ws.push(x)[i] == ws[i]);
        lemma_windows_wf_push(ws, i + 1, x);
    } else if i == ws.len() {
        assert(ws.push(x)[i] == x);
        assert(spec_windows_wf(ws.push(x), i + 1));
    }
}

/// A well-formed window sequence stays well-formed when a well-formed
/// window is put at the front.
proof fn lemma_windows_wf_insert_front(ws: Seq<ObjectV>, i: int, x: ObjectV)
    requires
        spec_windows_wf(ws, i),
        0 <= i,
        x.class == "GtkWindow"@,
        spec_tree_classes_ok(x),
    ensures
        spec_windows_wf(ws.insert(0, x), i + 1),
        i == 0 ==> spec_windows_wf(ws.insert(0, x), 0),
    decreases ws.len() - i,
{
    if i < ws.len() {
        assert(ws.insert(0, x)[i + 1] == ws[i]);
        lemma_windows_wf_insert_front(ws, i + 1, x);
    } else {
        assert(spec_windows_wf(ws.insert(0, x), i + 1));
    }
    if i == 0 {
        assert(ws.insert(0, x)[0] == x);
    }
}

/// The `interface` level of the law below: reading an interface body
/// preserves well-formed windows.
proof fn lemma_interface_windows_wf(evs: Seq<EventV>, pos: int, ws: Seq<ObjectV>)
    requires
        spec_windows_wf(ws, 0),
    ensures
        crate::grammar::spec_parse_interface_body(evs, pos, ws) matches Ok(sv)
            ==> spec_windows_wf(sv.0.windows, 0),
    decreases evs.len() - pos,
{
    if 0 <= pos && pos < evs.len() {
        match evs[pos] {
            EventV::Start { name, attrs } => {
                match spec_parse_object(evs, pos + 1, name, attrs) {
                    Ok((obj, p2)) => {
                        if obj.class == "GtkWindow"@ && pos + 1 <= p2 && p2 <= evs.len() {
                            lemma_parsed_classes_never_empty(evs, pos + 1, name, attrs);
                            if obj.id == Some("main"@) {
                                lemma_windows_wf_insert_front(ws, 0, obj);
                            } else {
                                lemma_windows_wf_push(ws, 0, obj);
                            }
                            lemma_interface_windows_wf(
                                evs,
                                p2,
                                spec_place_window(ws, obj),
                            );
                        }
                    },
                    Err(_) => {},
                }
            },
            EventV::Empty { name, attrs } => {
                let obj = spec_object_from_tag(name, attrs);
                if obj.class == "GtkWindow"@ {
                    lemma_tag_object_wf(name, attrs);
                    if obj.id == Some("main"@) {
                        lemma_windows_wf_insert_front(ws, 0, obj);
                    } else {
                        lemma_windows_wf_push(ws, 0, obj);
                    }
                    lemma_interface_windows_wf(evs, pos + 1, spec_place_window(ws, obj));
                }
            },
            EventV::Comment => {
                lemma_interface_windows_wf(evs, pos + 1, ws);
            },
            EventV::Other => {
                lemma_interface_windows_wf(evs, pos + 1, ws);
            },
            _ => {},
        }
    }
}

/// The `neww` level of the law below.
proof fn lemma_neww_body_windows_wf(
    evs: Seq<EventV>,
    pos: int,
    meta: crate::model::MetaV,
    interface: crate::model::InterfaceV,
)
    requires
        spec_windows_wf(interface.windows, 0),
    ensures
        crate::grammar::spec_parse_neww_body(evs, pos, meta, interface) matches Ok(sv)
            ==> spec_windows_wf(sv.0.interface.windows, 0),
    decreases evs.len() - pos,
{
    if 0 <= pos && pos < evs.len() {
        match evs[pos] {
            EventV::Start { name, .. } => {
                if name == "meta"@ {
                    match spec_parse_meta_body(evs, pos + 1, Seq::empty()) {
                        Ok((m, p2)) => {
                            if pos + 1 <= p2 && p2 <= evs.len() {
                                lemma_neww_body_windows_wf(evs, p2, m, interface);
                            }
                        },
                        Err(_) => {},
                    }
                } else if name == "interface"@ {
                    match spec_parse_interface_body(evs, pos + 1, Seq::empty()) {
                        Ok((i, p2)) => {
                            if pos + 1 <= p2 && p2 <= evs.len() {
                                assert(spec_windows_wf(Seq::empty(), 0));
                                lemma_interface_windows_wf(evs, pos + 1, Seq::empty());
                                lemma_neww_body_windows_wf(evs, p2, meta, i);
                            }
                        },
                        Err(_) => {},
                    }
                }
            },
            EventV::Comment => {
                lemma_neww_body_windows_wf(evs, pos + 1, meta, interface);
            },
            EventV::Other => {
                lemma_neww_body_windows_wf(evs, pos + 1, meta, interface);
            },
            _ => {},
        }
    }
}

/// Law: every window of a parsed document is a `GtkWindow` object,
/// and every node of every window's tree carries a non-empty class.
pub proof fn lemma_document_windows_wf(evs: Seq<EventV>)
    ensures
        crate::grammar::spec_parse_neww(evs) matches Ok(d) ==> spec_windows_wf(
            d.interface.windows,
            0,
        ),
{
    lemma_top_windows_wf(evs, 0);
}

/// The top level of the law above.
proof fn lemma_top_windows_wf(evs: Seq<EventV>, pos: int)
    ensures
        crate::grammar::spec_parse_top(evs, pos) matches Ok(sv) ==> spec_windows_wf(
            sv.0.interface.windows,
            0,
        ),
    decreases evs.len() - pos,
{
    if 0 <= pos && pos < evs.len() {
        match evs[pos] {
            EventV::Start { name, .. } => {
                if name == "neww"@ {
                    assert(spec_windows_wf(crate::grammar::spec_empty_interface().windows, 0));
                    lemma_neww_body_windows_wf(
                        evs,
                        pos + 1,
                        crate::grammar::spec_empty_meta(),
                        crate::grammar::spec_empty_interface(),
                    );
                }
            },
            EventV::Comment => {
                lemma_top_windows_wf(evs, pos + 1);
            },
            EventV::Other => {
                lemma_top_windows_wf(evs, pos + 1);
            },
            _ => {},
        }
    }
}

/// The attributes the serialized `object` tag of `o` carries: `id`
/// only when present, then `class`, values as escaped in the text.
pub open spec fn spec_builder_attrs(o: ObjectV) -> Seq<AttrV> {
    (match o.id {
        Some(id) => seq![AttrV { name: "id"@, value: spec_escape(id) }],
        None => Seq::<AttrV>::empty(),
    }) + seq![AttrV { name: "class"@, value: spec_escape(o.class) }]
}

/// The events the serialized `property` elements of `ps`, from index
/// `i` on, denote when the text is read back: a `property` tag with
/// the name as attribute, its value as a text run (absent when the
/// value is empty, since no text stands between the tags then), and
/// the closing tag.
pub open spec fn spec_prop_events(ps: Seq<PropertyV>, i: int) -> Seq<EventV>
    decreases ps.len() - i,
{
    if i < 0 || i >= ps.len() {
        Seq::empty()
    } else {
        (if spec_escape(ps[i].value).len() == 0 {
            seq![
                EventV::Start {
                    name: "property"@,
                    attrs: seq![AttrV { name: "name"@, value: spec_escape(ps[i].name) }],
                },
                EventV::End { name: "property"@ },
            ]
        } else {
            seq![
                EventV::Start {
                    name: "property"@,
                    attrs: seq![AttrV { name: "name"@, value: spec_escape(ps[i].name) }],
                },
                EventV::Text { text: spec_escape(ps[i].value) },
                EventV::End { name: "property"@ },
            ]
        }) + spec_prop_events(ps, i + 1)
    }
}

/// The events the serialized text of an object without children
/// denotes when it is read back as markup, text runs handed over as
/// written.  A tokenizer that also trims whitespace around text runs
/// reads a value with surrounding whitespace back trimmed; such
/// values lie outside this denotation.
pub open spec fn spec_flat_builder_events(o: ObjectV) -> Seq<EventV> {
    if o.properties.len() == 0 {
        seq![EventV::Empty { name: "object"@, attrs: spec_builder_attrs(o) }]
    } else {
        seq![EventV::Start { name: "object"@, attrs: spec_builder_attrs(o) }]
            + spec_prop_events(o.properties, 0) + seq![EventV::End { name: "object"@ }]
    }
}

/// What one serialized property reads back as: a `GtkProperty` object
/// holding the property's name and, unless it was empty, its value.
pub open spec fn spec_prop_read_back(p: PropertyV) -> ObjectV {
    ObjectV {
        id: None,
        class: "GtkProperty"@,
        properties: (if spec_escape(p.value).len() == 0 {
            seq![PropertyV { name: "name"@, value: spec_escape(p.name) }]
        } else {
            seq![
                PropertyV { name: "name"@, value: spec_escape(p.name) },
                PropertyV { name: "label"@, value: spec_escape(p.value) },
            ]
        }),
        children: Seq::empty(),
    }
}

/// What a serialized flat object reads back as: its id survives as
/// the id, its class as the value of a `class` property, and each
/// property's name and value inside one `GtkProperty` child, in
/// order.
pub open spec fn spec_flat_read_back(o: ObjectV) -> ObjectV {
    ObjectV {
        id: match o.id {
            Some(id) => Some(spec_escape(id)),
            None => None,
        },
        class: "GtkObject"@,
        properties: seq![PropertyV { name: "class"@, value: spec_escape(o.class) }],
        children: Seq::new(o.properties.len(), |i: int| spec_prop_read_back(o.properties[i])),
    }
}

/// Indexing past a `skip` reaches the same element of the sequence.
proof fn lemma_skip_index(s: Seq<EventV>, n: int, i: int)
    requires
        0 <= n <= s.len(),
        0 <= i,
        i < s.skip(n).len(),
    ensures
        s.skip(n)[i] == s[n + i],
        n + i < s.len(),
{
    vstd::seq::axiom_seq_subrange_len::<EventV>(s, n, s.len() as int);
    vstd::seq::axiom_seq_subrange_index::<EventV>(s, n, s.len() as int, i);
}

/// Classifying the serialized tag's attributes recovers the id and
/// turns the class attribute into the one property of the read-back.
proof fn lemma_builder_attrs_read_back(o: ObjectV)
    ensures
        (spec_object_from_tag("object"@, spec_builder_attrs(o)) == ObjectV {
            id: spec_flat_read_back(o).id,
            class: "GtkObject"@,
            properties: spec_flat_read_back(o).properties,
            children: Seq::empty(),
        }),
{
    reveal_strlit("Gtk");
    reveal_strlit("object");
    reveal_strlit("GtkObject");
    reveal_strlit("id");
    reveal_strlit("class");
    assert(spec_class_of("object"@) =~= "GtkObject"@);
    match o.id {
        Some(id) => {
            let a1 = AttrV { name: "id"@, value: spec_escape(id) };
            let a2 = AttrV { name: "class"@, value: spec_escape(o.class) };
            assert(spec_builder_attrs(o) =~= seq![a1, a2]);
            assert(a1.name == "id"@);
            assert(a2.name != "id"@);
            lemma_fold_two_attrs(a1, a2);
            assert(spec_object_from_tag("object"@, spec_builder_attrs(o)).id == Some(
                spec_escape(id),
            ));
            assert(spec_flat_read_back(o).id == Some(spec_escape(id)));
            assert(spec_object_from_tag("object"@, spec_builder_attrs(o)).properties =~= seq![
                PropertyV { name: "class"@, value: spec_escape(o.class) },
            ]);
        },
        None => {
            let a2 = AttrV { name: "class"@, value: spec_escape(o.class) };
            assert("class"@.len() == 5);
            assert("id"@.len() == 2);
            assert(a2.name != "id"@);
            assert(spec_builder_attrs(o) =~= seq![a2]);
            assert(seq![a2].drop_last() =~= Seq::<AttrV>::empty());
            assert(crate::grammar::spec_fold_attrs(Seq::<AttrV>::empty()) == (
                None::<Seq<char>>,
                Seq::<PropertyV>::empty(),
            ));
            assert(crate::grammar::spec_fold_attrs(seq![a2].drop_last())
                == crate::grammar::spec_fold_attrs(Seq::<AttrV>::empty()));
            assert(Seq::<PropertyV>::empty().push(PropertyV { name: a2.name, value: a2.value })
                =~= seq![PropertyV { name: a2.name, value: a2.value }]);
            assert(spec_object_from_tag("object"@, spec_builder_attrs(o)).id is None);
            assert(spec_flat_read_back(o).id is None);
            assert(spec_object_from_tag("object"@, spec_builder_attrs(o)).properties =~= seq![
                PropertyV { name: "class"@, value: spec_escape(o.class) },
            ]);
        },
    }
    assert(spec_flat_read_back(o).properties =~= seq![
        PropertyV { name: "class"@, value: spec_escape(o.class) },
    ]);
}

/// One serialized property element parses back to its `GtkProperty`
/// object, consuming its two or three events.
proof fn lemma_one_prop_reads_back(evs: Seq<EventV>, pos: int, ps: Seq<PropertyV>, i: int)
    requires
        0 <= pos <= evs.len(),
        0 <= i < ps.len(),
        evs.skip(pos) =~= spec_prop_events(ps, i) + seq![EventV::End { name: "object"@ }],
    ensures
        ({
            let step = if spec_escape(ps[i].value).len() == 0 {
                2int
            } else {
                3int
            };
            spec_parse_object(
                evs,
                pos + 1,
                "property"@,
                seq![AttrV { name: "name"@, value: spec_escape(ps[i].name) }],
            ) == Ok::<(ObjectV, int), crate::errors::ParseErrorV>(
                (spec_prop_read_back(ps[i]), pos + step),
            ) && evs.skip(pos + step) =~= spec_prop_events(ps, i + 1) + seq![
                EventV::End { name: "object"@ },
            ]
        }),
{
    reveal_strlit("Gtk");
    reveal_strlit("property");
    reveal_strlit("GtkProperty");
    reveal_strlit("name");
    reveal_strlit("id");
    assert(spec_class_of("property"@) =~= "GtkProperty"@);
    let a = AttrV { name: "name"@, value: spec_escape(ps[i].name) };
    assert("name"@.len() == 4);
    assert("id"@.len() == 2);
    assert(a.name != "id"@);
    assert(seq![a].drop_last() =~= Seq::<AttrV>::empty());
    assert(crate::grammar::spec_fold_attrs(Seq::<AttrV>::empty()) == (
        None::<Seq<char>>,
        Seq::<PropertyV>::empty(),
    ));
    assert(crate::grammar::spec_fold_attrs(seq![a].drop_last())
        == crate::grammar::spec_fold_attrs(Seq::<AttrV>::empty()));
    let obj0 = spec_object_from_tag("property"@, seq![a]);
    assert(obj0.properties =~= seq![PropertyV { name: "name"@, value: spec_escape(ps[i].name) }]);
    if spec_escape(ps[i].value).len() == 0 {
        assert(evs.skip(pos).len() >= 2);
        lemma_skip_index(evs, pos, 1);
        assert(evs[pos + 1] == EventV::End { name: "property"@ });
        assert(spec_parse_object_body(evs, pos + 1, "property"@, obj0) == Ok::<
            (ObjectV, int),
            crate::errors::ParseErrorV,
        >((obj0, pos + 2)));
        assert(obj0 == spec_prop_read_back(ps[i]));
        assert(evs.skip(pos + 2) =~= evs.skip(pos).skip(2));
        assert(evs.skip(pos).skip(2) =~= spec_prop_events(ps, i + 1) + seq![
            EventV::End { name: "object"@ },
        ]);
    } else {
        assert(evs.skip(pos).len() >= 3);
        lemma_skip_index(evs, pos, 1);
        assert(evs[pos + 1] == EventV::Text { text: spec_escape(ps[i].value) });
        lemma_skip_index(evs, pos, 2);
        assert(evs[pos + 2] == EventV::End { name: "property"@ });
        let obj1 = ObjectV {
            id: obj0.id,
            class: obj0.class,
            properties: obj0.properties.push(
                PropertyV { name: "label"@, value: spec_escape(ps[i].value) },
            ),
            children: obj0.children,
        };
        assert(spec_parse_object_body(evs, pos + 2, "property"@, obj1) == Ok::<
            (ObjectV, int),
            crate::errors::ParseErrorV,
        >((obj1, pos + 3)));
        assert(spec_parse_object_body(evs, pos + 1, "property"@, obj0)
            == spec_parse_object_body(evs, pos + 2, "property"@, obj1));
        assert(obj1.properties =~= spec_prop_read_back(ps[i]).properties);
        assert(obj1 == spec_prop_read_back(ps[i]));
        assert(evs.skip(pos + 3) =~= evs.skip(pos).skip(3));
        assert(evs.skip(pos).skip(3) =~= spec_prop_events(ps, i + 1) + seq![
            EventV::End { name: "object"@ },
        ]);
    }
}

/// Reading the serialized properties from index `i` on appends their
/// read-back children and stops at the closing `object` tag.
proof fn lemma_props_read_back(
    evs: Seq<EventV>,
    pos: int,
    ps: Seq<PropertyV>,
    i: int,
    acc: ObjectV,
)
    requires
        0 <= pos <= evs.len(),
        0 <= i <= ps.len(),
        evs.skip(pos) =~= spec_prop_events(ps, i) + seq![EventV::End { name: "object"@ }],
    ensures
        spec_parse_object_body(evs, pos, "object"@, acc) == Ok::<
            (ObjectV, int),
            crate::errors::ParseErrorV,
        >(
            (
                ObjectV {
                    id: acc.id,
                    class: acc.class,
                    properties: acc.properties,
                    children: acc.children + Seq::new(
                        (ps.len() - i) as nat,
                        |j: int| spec_prop_read_back(ps[i + j]),
                    ),
                },
                pos + spec_prop_events(ps, i).len() + 1,
            ),
        ),
    decreases ps.len() - i,
{
    if i == ps.len() {
        assert(evs.skip(pos).len() >= 1);
        lemma_skip_index(evs, pos, 0);
        assert(evs[pos] == EventV::End { name: "object"@ });
        assert(acc.children + Seq::new(0, |j: int| spec_prop_read_back(ps[i + j]))
            =~= acc.children);
        assert(ObjectV {
            id: acc.id,
            class: acc.class,
            properties: acc.properties,
            children: acc.children + Seq::new(0, |j: int| spec_prop_read_back(ps[i + j])),
        } == acc);
    } else {
        let step = if spec_escape(ps[i].value).len() == 0 {
            2int
        } else {
            3int
        };
        assert(evs.skip(pos).len() >= 1);
        lemma_skip_index(evs, pos, 0);
        assert(evs[pos] == EventV::Start {
            name: "property"@,
            attrs: seq![AttrV { name: "name"@, value: spec_escape(ps[i].name) }],
        });
        lemma_one_prop_reads_back(evs, pos, ps, i);
        let acc2 = ObjectV {
            id: acc.id,
            class: acc.class,
            properties: acc.properties,
            children: acc.children.push(spec_prop_read_back(ps[i])),
        };
        lemma_props_read_back(evs, pos + step, ps, i + 1, acc2);
        assert(acc2.children + Seq::new((ps.len() - i - 1) as nat, |j: int| spec_prop_read_back(
            ps[i + 1 + j],
        )) =~= acc.children + Seq::new((ps.len() - i) as nat, |j: int| spec_prop_read_back(
            ps[i + j],
        )));
        assert(spec_prop_events(ps, i).len() == step + spec_prop_events(ps, i + 1).len());
    }
}

/// Law, one level deep: the serialized text of an object without
/// children reads back with its content intact - the id survives as
/// the id, the class as the `class` attribute's value, and every
/// property's name and value inside its own element, in order (each
/// as escaped in the text; a value the escaping does not change comes
/// back verbatim).
pub proof fn lemma_flat_round_trip(o: ObjectV)
    requires
        o.children.len() == 0,
    ensures
        crate::grammar::spec_parse_ui(spec_flat_builder_events(o), 0) == Ok::<
            Option<ObjectV>,
            crate::errors::ParseErrorV,
        >(Some(spec_flat_read_back(o))),
{
    let evs = spec_flat_builder_events(o);
    lemma_builder_attrs_read_back(o);
    let obj0 = spec_object_from_tag("object"@, spec_builder_attrs(o));
    if o.properties.len() == 0 {
        assert(evs =~= seq![EventV::Empty { name: "object"@, attrs: spec_builder_attrs(o) }]);
        assert(evs[0] == EventV::Empty { name: "object"@, attrs: spec_builder_attrs(o) });
        assert(obj0.id == spec_flat_read_back(o).id);
        assert(obj0.class =~~= spec_flat_read_back(o).class);
        assert(obj0.properties =~~= spec_flat_read_back(o).properties);
        assert(obj0.children =~~= spec_flat_read_back(o).children);
        assert(obj0 =~~= spec_flat_read_back(o));
        assert(crate::grammar::spec_parse_ui(evs, 0) == Ok::<
            Option<ObjectV>,
            crate::errors::ParseErrorV,
        >(Some(obj0)));
    } else {
        assert(evs[0] == EventV::Start { name: "object"@, attrs: spec_builder_attrs(o) });
        assert(evs.skip(1) =~= spec_prop_events(o.properties, 0) + seq![
            EventV::End { name: "object"@ },
        ]);
        lemma_props_read_back(evs, 1, o.properties, 0, obj0);
        let res = ObjectV {
            id: obj0.id,
            class: obj0.class,
            properties: obj0.properties,
            children: obj0.children + Seq::new(
                o.properties.len(),
                |j: int| spec_prop_read_back(o.properties[0 + j]),
            ),
        };
        assert(spec_parse_object_body(evs, 1, "object"@, obj0) matches Ok(sv) && sv.0 == res);
        assert(spec_parse_object(evs, 1, "object"@, spec_builder_attrs(o))
            == spec_parse_object_body(evs, 1, "object"@, obj0));
        assert(res.id == spec_flat_read_back(o).id);
        assert(res.class =~~= spec_flat_read_back(o).class);
        assert(res.properties =~~= spec_flat_read_back(o).properties);
        assert(res.children =~~= spec_flat_read_back(o).children);
        assert(res =~~= spec_flat_read_back(o));
        assert(crate::grammar::spec_parse_ui(evs, 0) == Ok::<
            Option<ObjectV>,
            crate::errors::ParseErrorV,
        >(Some(res)));
    }
}

/// Law: an object with no properties and no children serializes as a
/// single self-closing `object` element - no `property` and no
/// `child` element is present at all.
pub proof fn lemma_leaf_serializes_bare(o: ObjectV)
    requires
        o.properties.len() == 0,
        o.children.len() == 0,
    ensures
        spec_serialize_object(o) == "<object"@ + (match o.id {
            Some(id) => " id=\""@ + spec_escape(id) + "\""@,
            None => Seq::<char>::empty(),
        }) + " class=\""@ + spec_escape(o.class) + "\""@ + "/>"@,
{
}

} // verus!
