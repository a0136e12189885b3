use neww::{parse_neww, parse_neww_ui, serialize_interface, serialize_object, Object, Property};

#[test]
fn leaf_object_serializes_self_closing() {
    let w = parse_neww_ui(r#"<window id="main"/>"#).unwrap().unwrap();
    assert_eq!(
        serialize_object(&w),
        r#"<object id="main" class="GtkWindow"/>"#
    );
}

#[test]
fn object_without_id_omits_the_attribute() {
    let w = parse_neww_ui("<window/>").unwrap().unwrap();
    assert_eq!(serialize_object(&w), r#"<object class="GtkWindow"/>"#);
}

#[test]
fn properties_and_children_round_trip_in_order() {
    let w = parse_neww_ui(r#"<window id="w1"><box orientation="horizontal">Hi</box></window>"#)
        .unwrap()
        .unwrap();
    assert_eq!(
        serialize_object(&w),
        r#"<object id="w1" class="GtkWindow"><child><object class="GtkBox"><property name="orientation">horizontal</property><property name="label">Hi</property></object></child></object>"#
    );
}

#[test]
fn serialized_text_reparses_to_the_same_values() {
    let w = parse_neww_ui(r#"<window id="w1" title="Greeting"/>"#).unwrap().unwrap();
    let xml = serialize_object(&w);
    let back = parse_neww_ui(&xml).unwrap().unwrap();
    assert_eq!(back.id, Some("w1".to_owned()));
    assert_eq!(
        back.properties,
        vec![Property {
            name: "class".to_owned(),
            value: "GtkWindow".to_owned()
        }]
    );
    assert_eq!(back.children.len(), 1);
    let prop = &back.children[0].object;
    assert_eq!(prop.class, "GtkProperty".to_owned());
    assert_eq!(
        prop.properties,
        vec![
            Property {
                name: "name".to_owned(),
                value: "title".to_owned()
            },
            Property {
                name: "label".to_owned(),
                value: "Greeting".to_owned()
            }
        ]
    );
}

#[test]
fn special_characters_are_escaped() {
    let o = Object {
        id: None,
        class: "GtkLabel".to_owned(),
        properties: vec![Property {
            name: "label".to_owned(),
            value: "a<b&\"c\"".to_owned(),
        }],
        children: Vec::new(),
    };
    assert_eq!(
        serialize_object(&o),
        r#"<object class="GtkLabel"><property name="label">a&lt;b&amp;&quot;c&quot;</property></object>"#
    );
}

#[test]
fn interface_serializes_all_windows() {
    let doc = parse_neww(
        r#"<neww><interface><window id="main"/><window id="other"/></interface></neww>"#,
    )
    .unwrap();
    assert_eq!(
        serialize_interface(&doc.interface),
        r#"<interface><object id="main" class="GtkWindow"/><object id="other" class="GtkWindow"/></interface>"#
    );
}

#[test]
fn empty_interface_serializes_self_closing() {
    let doc = parse_neww("<neww></neww>").unwrap();
    assert_eq!(serialize_interface(&doc.interface), "<interface/>");
}
