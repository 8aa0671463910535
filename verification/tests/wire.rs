use captioninator::line::Line;
use captioninator::wire::{frame, unframe};

#[test]
fn wire_form_is_a_tagged_object() {
    assert_eq!(
        Line::Recognising("hello".to_string()).to_wire(),
        Some("{\"Recognising\":\"hello\"}".to_string())
    );
    assert_eq!(
        Line::Recognised("Hello there.".to_string()).to_wire(),
        Some("{\"Recognised\":\"Hello there.\"}".to_string())
    );
}

#[test]
fn wire_form_escapes_the_text() {
    assert_eq!(
        Line::Recognised("say \"hi\"\n\\o/".to_string()).to_wire(),
        Some("{\"Recognised\":\"say \\\"hi\\\"\\n\\\\o/\"}".to_string())
    );
    assert_eq!(
        Line::Recognising(String::new()).to_wire(),
        Some("{\"Recognising\":\"\"}".to_string())
    );
}

#[test]
fn wire_form_agrees_with_serde_json() {
    let mut object = serde_json::Map::new();
    object.insert(
        "Recognised".to_string(),
        serde_json::Value::String("caf\u{e9} \u{1f600} \t}".to_string()),
    );
    let expected = serde_json::to_string(&serde_json::Value::Object(object)).unwrap();
    assert_eq!(
        Line::Recognised("caf\u{e9} \u{1f600} \t}".to_string()).to_wire(),
        Some(expected)
    );
}

#[test]
fn wire_round_trip() {
    let lines = [
        Line::Recognising("game".to_string()),
        Line::Recognised("You can't do it again.".to_string()),
        Line::Recognised("quote \" backslash \\ brace } tab \t".to_string()),
        Line::Recognising("\"}".to_string()),
        Line::Recognised(String::new()),
        Line::Recognising("\u{65e5}\u{672c}\u{8a9e} \u{0} \u{1f}".to_string()),
    ];
    for line in lines {
        let wire = line.to_wire().unwrap();
        assert_eq!(Line::from_wire(&wire), Some(line));
    }
}

#[test]
fn from_wire_reads_escapes() {
    assert_eq!(
        Line::from_wire("{\"Recognising\":\"a\\u0041\\n\"}"),
        Some(Line::Recognising("aA\n".to_string()))
    );
    assert_eq!(
        Line::from_wire("{\"Recognised\": \"spaced\" }"),
        Some(Line::Recognised("spaced".to_string()))
    );
}

#[test]
fn from_wire_refuses_what_is_no_line() {
    assert_eq!(Line::from_wire(""), None);
    assert_eq!(Line::from_wire("{}"), None);
    assert_eq!(Line::from_wire("\"Recognising\""), None);
    assert_eq!(Line::from_wire("{\"Recognising\":\"open"), None);
    assert_eq!(Line::from_wire("{\"Recognising\":5}"), None);
    assert_eq!(Line::from_wire("{\"Recognizing\":\"x\"}"), None);
    assert_eq!(Line::from_wire("{\"Recognised\":\"x\"}}"), None);
    assert_eq!(Line::from_wire("{\"Recognised\":\"x\""), None);
}

#[test]
fn frame_and_unframe() {
    assert_eq!(frame(false, "\"x\""), "{\"Recognising\":\"x\"}");
    assert_eq!(frame(true, "\"x\""), "{\"Recognised\":\"x\"}");
    assert_eq!(unframe(false, "{\"Recognising\":\"x\"}"), Some("\"x\""));
    assert_eq!(unframe(true, "{\"Recognising\":\"x\"}"), None);
    assert_eq!(unframe(true, "{\"Recognised\":}"), Some(""));
    assert_eq!(unframe(true, "{\"Recognised\":"), None);
}
