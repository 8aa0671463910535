use captioninator::captions::{
    viewer_step, wordlist_choice, CaptionBuffer, ConnectionState, ViewerAction, ViewerEvent,
};
use captioninator::line::Line;

#[test]
fn connection_state_defaults_to_disconnected() {
    assert_eq!(ConnectionState::default(), ConnectionState::Disconnected);
    assert!(ConnectionState::Disconnected.is_disconnected());
    assert!(!ConnectionState::Connecting.is_disconnected());
    assert!(!ConnectionState::Connected.is_disconnected());
}

#[test]
fn caption_buffer_keeps_last_five_sentences() {
    let mut buffer = CaptionBuffer::default();
    assert_eq!(buffer.sentences(), Vec::<String>::new());
    assert_eq!(buffer.active(), None);
    for n in 0..7 {
        buffer.push(Line::Recognising(format!("partial {n}")));
        assert_eq!(buffer.active(), Some(&format!("partial {n}")));
        buffer.push(Line::Recognised(format!("sentence {n}")));
        assert_eq!(buffer.active(), None);
    }
    assert_eq!(
        buffer.sentences(),
        vec!["sentence 2", "sentence 3", "sentence 4", "sentence 5", "sentence 6"]
    );
}

#[test]
fn hypothesis_replaces_hypothesis() {
    let mut buffer = CaptionBuffer::default();
    buffer.push(Line::Recognised("First.".to_string()));
    buffer.push(Line::Recognising("sec".to_string()));
    buffer.push(Line::Recognising("second".to_string()));
    assert_eq!(buffer.active(), Some(&"second".to_string()));
    assert_eq!(buffer.sentences(), vec!["First."]);
}

#[test]
fn viewer_connects_when_disconnected() {
    let mut state = ConnectionState::default();
    let mut captions = CaptionBuffer::default();
    assert_eq!(
        viewer_step(&mut state, &mut captions, ViewerEvent::Rendered),
        ViewerAction::Connect
    );
    assert_eq!(state, ConnectionState::Connecting);
    assert_eq!(
        viewer_step(&mut state, &mut captions, ViewerEvent::Rendered),
        ViewerAction::Nothing
    );
    assert_eq!(
        viewer_step(&mut state, &mut captions, ViewerEvent::Opened),
        ViewerAction::Nothing
    );
    assert_eq!(state, ConnectionState::Connected);
    assert_eq!(
        viewer_step(&mut state, &mut captions, ViewerEvent::Rendered),
        ViewerAction::Nothing
    );
    assert_eq!(
        viewer_step(&mut state, &mut captions, ViewerEvent::Finished),
        ViewerAction::Nothing
    );
    assert_eq!(state, ConnectionState::Disconnected);
}

#[test]
fn viewer_takes_lines_and_hangs_up_on_garbage() {
    let mut state = ConnectionState::Connected;
    let mut captions = CaptionBuffer::default();
    assert_eq!(
        viewer_step(
            &mut state,
            &mut captions,
            ViewerEvent::Text("{\"Recognising\":\"hel\"}".to_string())
        ),
        ViewerAction::Redraw
    );
    assert_eq!(captions.active(), Some(&"hel".to_string()));
    assert_eq!(
        viewer_step(
            &mut state,
            &mut captions,
            ViewerEvent::Text("{\"Recognised\":\"Hello.\"}".to_string())
        ),
        ViewerAction::Redraw
    );
    assert_eq!(captions.sentences(), vec!["Hello."]);
    assert_eq!(captions.active(), None);
    assert_eq!(
        viewer_step(
            &mut state,
            &mut captions,
            ViewerEvent::Text("not json".to_string())
        ),
        ViewerAction::HangUp
    );
    assert_eq!(state, ConnectionState::Connected);
    assert_eq!(captions.sentences(), vec!["Hello."]);
}

#[test]
fn wordlist_choice_maps_special_value_to_none() {
    assert_eq!(wordlist_choice("special-value-for-none".to_string()), None);
    assert_eq!(
        wordlist_choice("names.txt".to_string()),
        Some("names.txt".to_string())
    );
    assert_eq!(wordlist_choice(String::new()), Some(String::new()));
}
