use neww::{parse_neww, parse_neww_ui, Child, Object, ParseError, Property, Script};

#[test]
fn parse_nested_objects() {
    let window = parse_neww_ui(
        r#"
          <window id="win1">
            <box orientation="horizontal">
              <!-- NOTE: space before "world" label will be trimmed -->
              <label>Hello</label><label> world</label>
              <button>Exit</button>
            </box>
          </window>"#,
    )
    .unwrap();

    assert_eq!(
        window,
        Some(Object {
            id: Some("win1".to_owned()),
            class: "GtkWindow".to_owned(),
            properties: Vec::new(),
            children: vec![Child {
                object: Object {
                    id: None,
                    class: "GtkBox".to_owned(),
                    properties: vec![Property {
                        name: "orientation".to_owned(),
                        value: "horizontal".to_owned()
                    }],
                    children: vec![
                        Child {
                            object: Object {
                                id: None,
                                class: "GtkLabel".to_owned(),
                                properties: vec![Property {
                                    name: "label".to_owned(),
                                    value: "Hello".to_owned()
                                }],
                                children: Vec::new()
                            }
                        },
                        Child {
                            object: Object {
                                id: None,
                                class: "GtkLabel".to_owned(),
                                properties: vec![Property {
                                    name: "label".to_owned(),
                                    value: "world".to_owned()
                                }],
                                children: Vec::new()
                            }
                        },
                        Child {
                            object: Object {
                                id: None,
                                class: "GtkButton".to_owned(),
                                properties: vec![Property {
                                    name: "label".to_owned(),
                                    value: "Exit".to_owned()
                                }],
                                children: Vec::new()
                            }
                        }
                    ]
                }
            }]
        })
    );
}

#[test]
fn minimal_document_one_main_window() {
    let doc = parse_neww(r#"<neww><interface><window id="main"/></interface></neww>"#).unwrap();
    assert_eq!(doc.interface.windows.len(), 1);
    let w = &doc.interface.windows[0];
    assert_eq!(w.id, Some("main".to_owned()));
    assert_eq!(w.class, "GtkWindow".to_owned());
    assert!(w.properties.is_empty());
    assert!(w.children.is_empty());
    assert!(doc.meta.scripts.is_empty());
}

#[test]
fn main_window_moves_to_front() {
    let doc = parse_neww(
        r#"<neww><interface>
             <window id="a"/>
             <window id="main"/>
             <window id="b"/>
           </interface></neww>"#,
    )
    .unwrap();
    let ids: Vec<Option<String>> = doc.interface.windows.iter().map(|w| w.id.clone()).collect();
    assert_eq!(
        ids,
        vec![
            Some("main".to_owned()),
            Some("a".to_owned()),
            Some("b".to_owned())
        ]
    );
}

#[test]
fn each_main_window_is_inserted_at_the_front() {
    // Repeated `id="main"` windows each go to index 0, so the last
    // one ends up first; this observed behavior is kept as is.
    let doc = parse_neww(
        r#"<neww><interface>
             <window id="main" n="1"/>
             <window id="other"/>
             <window id="main" n="2"/>
           </interface></neww>"#,
    )
    .unwrap();
    assert_eq!(doc.interface.windows.len(), 3);
    assert_eq!(doc.interface.windows[0].properties[0].value, "2".to_owned());
    assert_eq!(doc.interface.windows[1].properties[0].value, "1".to_owned());
    assert_eq!(doc.interface.windows[2].id, Some("other".to_owned()));
}

#[test]
fn windows_without_main_keep_order() {
    let doc = parse_neww(
        r#"<neww><interface><window id="x"/><window/><window id="y"/></interface></neww>"#,
    )
    .unwrap();
    let ids: Vec<Option<String>> = doc.interface.windows.iter().map(|w| w.id.clone()).collect();
    assert_eq!(ids, vec![Some("x".to_owned()), None, Some("y".to_owned())]);
}

#[test]
fn attributes_keep_order_and_id_is_split_off() {
    let w = parse_neww_ui(r#"<window first="1" second="2"/>"#).unwrap().unwrap();
    assert_eq!(w.id, None);
    assert_eq!(
        w.properties,
        vec![
            Property {
                name: "first".to_owned(),
                value: "1".to_owned()
            },
            Property {
                name: "second".to_owned(),
                value: "2".to_owned()
            }
        ]
    );

    let w2 = parse_neww_ui(r#"<window title="t" id="k"/>"#).unwrap().unwrap();
    assert_eq!(w2.id, Some("k".to_owned()));
    assert_eq!(
        w2.properties,
        vec![Property {
            name: "title".to_owned(),
            value: "t".to_owned()
        }]
    );
}

#[test]
fn duplicate_attributes_are_rejected_by_the_tokenizer() {
    assert_eq!(
        parse_neww_ui(r#"<window id="one" id="two"/>"#),
        Err(ParseError::BadSyntax)
    );
}

#[test]
fn class_derivation_examples() {
    for (tag, class) in [
        ("window", "GtkWindow"),
        ("box", "GtkBox"),
        ("label", "GtkLabel"),
        ("entry", "GtkEntry"),
    ] {
        let w = parse_neww_ui(&format!("<{tag}/>")).unwrap().unwrap();
        assert_eq!(w.class, class.to_owned());
    }
}

#[test]
fn class_derivation_keeps_remainder_untouched() {
    let w = parse_neww_ui("<myWidget/>").unwrap().unwrap();
    assert_eq!(w.class, "GtkMyWidget".to_owned());
    let w2 = parse_neww_ui("<Window/>").unwrap().unwrap();
    assert_eq!(w2.class, "GtkWindow".to_owned());
}

#[test]
fn scripts_are_collected_in_order() {
    let doc = parse_neww(
        r#"<neww><meta>
             <script>print(1)<!-- note -->print(2)</script>
             <script src="init.lua"/>
           </meta></neww>"#,
    )
    .unwrap();
    assert_eq!(
        doc.meta.scripts,
        vec![
            Script::Inline("print(1)print(2)".to_owned()),
            Script::SourcePath("init.lua".to_owned())
        ]
    );
    assert!(doc.interface.windows.is_empty());
}

#[test]
fn repeated_meta_section_overwrites_the_earlier_one() {
    let doc = parse_neww(
        r#"<neww>
             <meta><script src="a.lua"/></meta>
             <meta><script src="b.lua"/></meta>
           </neww>"#,
    )
    .unwrap();
    assert_eq!(doc.meta.scripts, vec![Script::SourcePath("b.lua".to_owned())]);
}

#[test]
fn script_accessors_resolve_each_variant() {
    let inline = Script::Inline("print(1)".to_owned());
    assert_eq!(inline.inline_body(), Some("print(1)".to_owned()));
    assert_eq!(inline.source_path(), None);
    let path = Script::SourcePath("init.lua".to_owned());
    assert_eq!(path.inline_body(), None);
    assert_eq!(path.source_path(), Some("init.lua".to_owned()));
}

#[test]
fn empty_document_uses_defaults() {
    let doc = parse_neww("<neww></neww>").unwrap();
    assert!(doc.meta.scripts.is_empty());
    assert!(doc.interface.windows.is_empty());
}

#[test]
fn unclosed_root_tag_fails() {
    let r = parse_neww("<neww><interface><window id=\"main\"/></interface>");
    assert_eq!(r, Err(ParseError::UnexpectedEof));
}

#[test]
fn script_container_with_attribute_fails() {
    let r = parse_neww(r#"<neww><meta><script lang="lua">x</script></meta></neww>"#);
    assert_eq!(r, Err(ParseError::ScriptAttrForbidden));
}

#[test]
fn empty_script_without_src_fails() {
    let r = parse_neww(r#"<neww><meta><script/></meta></neww>"#);
    assert_eq!(r, Err(ParseError::ScriptSrcMissing));
}

#[test]
fn empty_script_with_wrong_attribute_fails() {
    let r = parse_neww(r#"<neww><meta><script path="x"/></meta></neww>"#);
    assert_eq!(
        r,
        Err(ParseError::ScriptAttrNotSrc {
            got: "path".to_owned()
        })
    );
}

#[test]
fn non_window_under_interface_fails() {
    let r = parse_neww(r#"<neww><interface><label/></interface></neww>"#);
    assert_eq!(
        r,
        Err(ParseError::ClassNotWindow {
            got: "GtkLabel".to_owned()
        })
    );
    let r2 = parse_neww(r#"<neww><interface><label>x</label></interface></neww>"#);
    assert_eq!(
        r2,
        Err(ParseError::ClassNotWindow {
            got: "GtkLabel".to_owned()
        })
    );
}

#[test]
fn wrong_top_level_tag_fails() {
    let r = parse_neww("<html></html>");
    assert_eq!(
        r,
        Err(ParseError::UnexpectedStartTag {
            got: "html".to_owned()
        })
    );
}

#[test]
fn text_at_document_level_fails() {
    let r = parse_neww("<neww>stray text</neww>");
    assert_eq!(r, Err(ParseError::UnexpectedText));
}

#[test]
fn malformed_markup_fails() {
    let r = parse_neww("<neww><a></b></a></neww>");
    assert_eq!(r, Err(ParseError::BadSyntax));
}

#[test]
fn cdata_inside_object_fails() {
    let r = parse_neww_ui("<window><![CDATA[x]]></window>");
    assert_eq!(r, Err(ParseError::UnexpectedEvent));
}

#[test]
fn empty_input_yields_no_object() {
    assert_eq!(parse_neww_ui(""), Ok(None));
    assert_eq!(parse_neww_ui("<!-- nothing here -->"), Ok(None));
}
