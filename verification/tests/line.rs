use captioninator::line::{parse_script, InvalidInput, Line};
use captioninator::text::lines_with_content;

#[test]
fn line_from_str() {
    let cases = [
        ("RECOGNIZING: game", Line::Recognising("game".into())),
        (
            "RECOGNIZING: let's get into business",
            Line::Recognising("let's get into business".into()),
        ),
        (
            "RECOGNIZED: You can't do it again. Just so you know. \
                Marlene's still asleep.",
            Line::Recognised(
                "You can't do it again. Just so you know. Marlene's \
                    still asleep."
                    .into(),
            ),
        ),
    ];

    for (input, parsed) in cases.into_iter() {
        println!("case: `{input}`");
        assert_eq!(parsed, input.parse().unwrap());
    }

    let _ = "you just lost the game".parse::<Line>().unwrap_err();
}

#[test]
fn from_str_agrees_with_parse() {
    assert_eq!(
        Line::from_str("RECOGNIZED: done"),
        Ok(Line::Recognised("done".to_string()))
    );
    assert_eq!(
        Line::from_str("RECOGNIZING: "),
        Ok(Line::Recognising(String::new()))
    );
    assert_eq!(Line::from_str("RECOGNIZING:game"), Err(InvalidInput));
    assert_eq!(Line::from_str(" RECOGNIZED: x"), Err(InvalidInput));
    assert_eq!(Line::from_str(""), Err(InvalidInput));
}

#[test]
fn prefix_is_taken_off_once() {
    assert_eq!(
        Line::from_str("RECOGNIZING: RECOGNIZED: x"),
        Ok(Line::Recognising("RECOGNIZED: x".to_string()))
    );
}

#[test]
fn line_accessors() {
    let partial = Line::Recognising("so far".to_string());
    let done = Line::Recognised("all of it".to_string());
    assert_eq!(partial.text(), "so far");
    assert_eq!(done.text(), "all of it");
    assert!(!partial.is_final());
    assert!(done.is_final());
    assert_eq!(partial.clone(), partial);
    assert_eq!(done.clone(), done);
}

#[test]
fn invalid_input_message() {
    assert_eq!(InvalidInput.message(), "Invalid input");
}

#[test]
fn lines_are_split_at_line_feeds() {
    assert_eq!(
        lines_with_content("one\ntwo\r\n\nthree"),
        vec!["one".to_string(), "two".to_string(), "three".to_string()]
    );
    assert_eq!(lines_with_content(""), Vec::<String>::new());
    assert_eq!(lines_with_content("\n\n\r\n"), Vec::<String>::new());
    assert_eq!(lines_with_content("last\n"), vec!["last".to_string()]);
}

#[test]
fn carriage_return_without_line_feed_stays() {
    assert_eq!(lines_with_content("a\rb"), vec!["a\rb".to_string()]);
    assert_eq!(lines_with_content("tail\r"), vec!["tail\r".to_string()]);
    assert_eq!(lines_with_content("x\r\r\n"), vec!["x\r".to_string()]);
}

#[test]
fn script_is_read_line_by_line() {
    let script = "RECOGNIZING: he\nRECOGNIZING: hello\n\nRECOGNIZED: Hello.\r\n";
    assert_eq!(
        parse_script(script),
        Ok(vec![
            Line::Recognising("he".to_string()),
            Line::Recognising("hello".to_string()),
            Line::Recognised("Hello.".to_string()),
        ])
    );
}

#[test]
fn script_with_a_bad_line_is_refused() {
    let script = "RECOGNIZING: he\nnot a line\nRECOGNIZED: Hello.\n";
    assert_eq!(parse_script(script), Err(InvalidInput));
}

#[test]
fn empty_script_has_no_lines() {
    assert_eq!(parse_script(""), Ok(vec![]));
    assert_eq!(parse_script("\n\n"), Ok(vec![]));
}
