use neww::{parse_document, parse_object, parse_object_empty_tag, Attr, Event, ParseError, Script};

fn start(name: &str) -> Event {
    Event::Start {
        name: name.to_owned(),
        attrs: Vec::new(),
    }
}

fn end(name: &str) -> Event {
    Event::End {
        name: name.to_owned(),
    }
}

#[test]
fn document_from_events() {
    let events = vec![
        Event::Other,
        start("neww"),
        start("meta"),
        start("script"),
        Event::Text {
            text: "print(1)".to_owned(),
        },
        end("script"),
        end("meta"),
        end("neww"),
    ];
    let doc = parse_document(&events).unwrap();
    assert_eq!(doc.meta.scripts, vec![Script::Inline("print(1)".to_owned())]);
}

#[test]
fn mismatched_end_tag_in_events_fails() {
    let events = vec![start("neww"), end("thing")];
    assert_eq!(
        parse_document(&events),
        Err(ParseError::UnexpectedEndTag {
            got: "thing".to_owned(),
            expected: "neww".to_owned()
        })
    );
}

#[test]
fn exhausted_events_fail() {
    let events = vec![start("neww")];
    assert_eq!(parse_document(&events), Err(ParseError::UnexpectedEof));
}

#[test]
fn object_from_tag_classifies_attributes() {
    let attrs = vec![
        Attr {
            name: "id".to_owned(),
            value: "one".to_owned(),
        },
        Attr {
            name: "title".to_owned(),
            value: "T".to_owned(),
        },
        Attr {
            name: "id".to_owned(),
            value: "two".to_owned(),
        },
    ];
    let o = parse_object_empty_tag(&"entry".to_owned(), &attrs);
    assert_eq!(o.class, "GtkEntry".to_owned());
    assert_eq!(o.id, Some("two".to_owned()));
    assert_eq!(o.properties.len(), 1);
    assert_eq!(o.properties[0].name, "title".to_owned());
}

#[test]
fn repeated_plain_attributes_become_repeated_properties() {
    let attrs = vec![
        Attr {
            name: "p".to_owned(),
            value: "1".to_owned(),
        },
        Attr {
            name: "p".to_owned(),
            value: "2".to_owned(),
        },
    ];
    let o = parse_object_empty_tag(&"box".to_owned(), &attrs);
    assert_eq!(o.id, None);
    assert_eq!(o.properties.len(), 2);
    assert_eq!(o.properties[0].value, "1".to_owned());
    assert_eq!(o.properties[1].value, "2".to_owned());
}

#[test]
fn object_body_from_events() {
    let events = vec![
        Event::Comment,
        Event::Text {
            text: "hi".to_owned(),
        },
        end("box"),
    ];
    let (o, next) = parse_object(&events, 0, &"box".to_owned(), &Vec::new()).unwrap();
    assert_eq!(next, 3);
    assert_eq!(o.class, "GtkBox".to_owned());
    assert_eq!(o.properties.len(), 1);
    assert_eq!(o.properties[0].name, "label".to_owned());
    assert_eq!(o.properties[0].value, "hi".to_owned());
}
