use captioninator::control::{
    ControlMessage, Language, RecognitionLanguage, Reply, RunState, SetupState, Wordlist,
};
use captioninator::line::Line;
use captioninator::machine::{Action, Event, RecognitionEvent, RunStateMachine, SessionConfig};

fn script() -> Vec<Line> {
    vec![
        Line::Recognising("one".to_string()),
        Line::Recognising("one two".to_string()),
        Line::Recognised("One, two.".to_string()),
    ]
}

fn set_state(state: RunState) -> Event {
    Event::Control(ControlMessage::SetState(state))
}

fn codes() -> Vec<String> {
    vec![
        "en-GB".to_string(),
        "en-IE".to_string(),
        "en-US".to_string(),
        "ja-JP".to_string(),
    ]
}

#[test]
fn machine_starts_stopped() {
    let machine = RunStateMachine::new(script());
    assert_eq!(machine.run_state(), RunState::Stopped);
    assert_eq!(
        machine.setup(),
        &SetupState {
            language: "en-GB".to_string(),
            wordlist: None
        }
    );
    assert_eq!(machine.session(), None);
    assert_eq!(machine.cursor(), 0);
}

#[test]
fn test_mode_cycles_through_script() {
    let lines = script();
    let no_wordlists = Vec::new();
    let mut machine = RunStateMachine::new(script());
    assert_eq!(
        machine.step(set_state(RunState::Test), &no_wordlists),
        Action::Transition {
            from: RunState::Stopped,
            to: RunState::Test
        }
    );
    let mut emitted = Vec::new();
    for _ in 0..7 {
        match machine.step(Event::Tick, &no_wordlists) {
            Action::Publish(line) => emitted.push(line),
            other => panic!("unexpected action {other:?}"),
        }
    }
    assert_eq!(
        emitted,
        vec![
            lines[0].clone(),
            lines[1].clone(),
            lines[2].clone(),
            lines[0].clone(),
            lines[1].clone(),
            lines[2].clone(),
            lines[0].clone(),
        ]
    );
    assert_eq!(machine.cursor(), 1);
}

#[test]
fn single_line_script_repeats() {
    let no_wordlists = Vec::new();
    let mut machine = RunStateMachine::new(vec![Line::Recognised("only".to_string())]);
    machine.step(set_state(RunState::Test), &no_wordlists);
    for _ in 0..3 {
        assert_eq!(
            machine.step(Event::Tick, &no_wordlists),
            Action::Publish(Line::Recognised("only".to_string()))
        );
        assert_eq!(machine.cursor(), 0);
    }
}

#[test]
fn test_mode_restarts_at_head_of_script() {
    let no_wordlists = Vec::new();
    let mut machine = RunStateMachine::new(script());
    machine.step(set_state(RunState::Test), &no_wordlists);
    machine.step(Event::Tick, &no_wordlists);
    machine.step(Event::Tick, &no_wordlists);
    assert_eq!(machine.cursor(), 2);
    assert_eq!(machine.step(set_state(RunState::Test), &no_wordlists), Action::Nothing);
    assert_eq!(machine.cursor(), 2);
    assert_eq!(
        machine.step(set_state(RunState::Stopped), &no_wordlists),
        Action::Transition {
            from: RunState::Test,
            to: RunState::Stopped
        }
    );
    assert_eq!(machine.cursor(), 0);
    machine.step(set_state(RunState::Test), &no_wordlists);
    assert_eq!(
        machine.step(Event::Tick, &no_wordlists),
        Action::Publish(Line::Recognising("one".to_string()))
    );
}

#[test]
fn tick_outside_test_mode_publishes_nothing() {
    let no_wordlists = Vec::new();
    let mut machine = RunStateMachine::new(script());
    assert_eq!(machine.step(Event::Tick, &no_wordlists), Action::Nothing);
    machine.step(set_state(RunState::Running), &no_wordlists);
    assert_eq!(machine.step(Event::Tick, &no_wordlists), Action::Nothing);
    assert_eq!(machine.cursor(), 0);
}

#[test]
fn get_state_after_set_state_observes_it() {
    let no_wordlists = Vec::new();
    let mut machine = RunStateMachine::new(script());
    assert_eq!(
        machine.step(Event::Control(ControlMessage::GetState), &no_wordlists),
        Action::Reply(Reply::State(RunState::Stopped))
    );
    for target in [RunState::Running, RunState::Test, RunState::Stopped, RunState::Test] {
        machine.step(set_state(target), &no_wordlists);
        machine.step(Event::Control(ControlMessage::GetLanguage), &no_wordlists);
        assert_eq!(
            machine.step(Event::Control(ControlMessage::GetState), &no_wordlists),
            Action::Reply(Reply::State(target))
        );
        assert_eq!(machine.run_state(), target);
    }
}

#[test]
fn get_state_observes_a_later_state() {
    let no_wordlists = Vec::new();
    let mut machine = RunStateMachine::new(script());
    machine.step(set_state(RunState::Running), &no_wordlists);
    machine.step(Event::ConnectFailed, &no_wordlists);
    assert_eq!(
        machine.step(Event::Control(ControlMessage::GetState), &no_wordlists),
        Action::Reply(Reply::State(RunState::Stopped))
    );
}

#[test]
fn set_state_to_current_state_does_nothing() {
    let no_wordlists = Vec::new();
    let mut machine = RunStateMachine::new(script());
    assert_eq!(machine.step(set_state(RunState::Stopped), &no_wordlists), Action::Nothing);
    machine.step(set_state(RunState::Running), &no_wordlists);
    let session = machine.session().map(|s| SessionConfig {
        language: s.language,
        wordlist: s.wordlist.clone(),
    });
    assert_eq!(machine.step(set_state(RunState::Running), &no_wordlists), Action::Nothing);
    assert_eq!(machine.run_state(), RunState::Running);
    assert_eq!(machine.session().map(|s| s.language), session.map(|s| s.language));
}

#[test]
fn running_moves_straight_to_test() {
    let no_wordlists = Vec::new();
    let mut machine = RunStateMachine::new(script());
    machine.step(set_state(RunState::Running), &no_wordlists);
    assert_eq!(
        machine.step(set_state(RunState::Test), &no_wordlists),
        Action::Transition {
            from: RunState::Running,
            to: RunState::Test
        }
    );
    assert_eq!(machine.session(), None);
    assert_eq!(machine.run_state(), RunState::Test);
}

#[test]
fn language_change_applies_to_next_session() {
    let no_wordlists = Vec::new();
    let mut machine = RunStateMachine::new(script());
    assert_eq!(
        machine.step(set_state(RunState::Running), &no_wordlists),
        Action::Transition {
            from: RunState::Stopped,
            to: RunState::Running
        }
    );
    let first = SessionConfig {
        language: RecognitionLanguage::EnGb,
        wordlist: None,
    };
    assert_eq!(machine.session(), Some(&first));

    assert_eq!(
        machine.step(
            Event::Control(ControlMessage::SetLanguage("ja-JP".to_string())),
            &no_wordlists
        ),
        Action::Nothing
    );
    assert_eq!(machine.setup().language, "ja-JP");
    assert_eq!(machine.session(), Some(&first));

    machine.step(set_state(RunState::Stopped), &no_wordlists);
    assert_eq!(machine.session(), None);
    machine.step(set_state(RunState::Running), &no_wordlists);
    assert_eq!(
        machine.session(),
        Some(&SessionConfig {
            language: RecognitionLanguage::JaJp,
            wordlist: None,
        })
    );
}

#[test]
fn wordlist_change_applies_to_next_session() {
    let wordlists = vec!["names.txt".to_string(), "places.txt".to_string()];
    let mut machine = RunStateMachine::new(script());
    machine.step(set_state(RunState::Running), &wordlists);
    machine.step(
        Event::Control(ControlMessage::SetWordlist(Some("places.txt".to_string()))),
        &wordlists,
    );
    assert_eq!(machine.session().unwrap().wordlist, None);
    machine.step(set_state(RunState::Test), &wordlists);
    machine.step(set_state(RunState::Running), &wordlists);
    assert_eq!(
        machine.session(),
        Some(&SessionConfig {
            language: RecognitionLanguage::EnGb,
            wordlist: Some("places.txt".to_string()),
        })
    );
}

#[test]
fn unknown_language_is_rejected_and_reply_reports_prior() {
    let no_wordlists = Vec::new();
    let mut machine = RunStateMachine::new(script());
    machine.step(
        Event::Control(ControlMessage::SetLanguage("en-US".to_string())),
        &no_wordlists,
    );
    assert_eq!(
        machine.step(
            Event::Control(ControlMessage::SetLanguage("tlh".to_string())),
            &no_wordlists
        ),
        Action::Nothing
    );
    assert_eq!(machine.setup().language, "en-US");
    assert_eq!(
        machine.step(Event::Control(ControlMessage::GetLanguage), &no_wordlists),
        Action::Reply(Reply::Language(Language {
            options: codes(),
            current: "en-US".to_string(),
        }))
    );
}

#[test]
fn language_codes_are_matched_exactly() {
    let no_wordlists = Vec::new();
    let mut machine = RunStateMachine::new(script());
    for code in ["en-gb", "en-GB ", "", "en", "EN-US"] {
        machine.step(
            Event::Control(ControlMessage::SetLanguage(code.to_string())),
            &no_wordlists,
        );
        assert_eq!(machine.setup().language, "en-GB");
    }
}

#[test]
fn wordlist_is_validated_against_options() {
    let wordlists = vec!["names.txt".to_string()];
    let mut machine = RunStateMachine::new(script());
    machine.step(
        Event::Control(ControlMessage::SetWordlist(Some("nope.txt".to_string()))),
        &wordlists,
    );
    assert_eq!(machine.setup().wordlist, None);
    machine.step(
        Event::Control(ControlMessage::SetWordlist(Some("names.txt".to_string()))),
        &wordlists,
    );
    assert_eq!(machine.setup().wordlist, Some("names.txt".to_string()));
    machine.step(
        Event::Control(ControlMessage::SetWordlist(Some("nope.txt".to_string()))),
        &wordlists,
    );
    assert_eq!(machine.setup().wordlist, Some("names.txt".to_string()));
    assert_eq!(
        machine.step(Event::Control(ControlMessage::GetWordlist), &wordlists),
        Action::Reply(Reply::Wordlist(Wordlist {
            options: vec!["names.txt".to_string()],
            current: Some("names.txt".to_string()),
        }))
    );
    machine.step(Event::Control(ControlMessage::SetWordlist(None)), &wordlists);
    assert_eq!(machine.setup().wordlist, None);
}

#[test]
fn recognition_events_become_lines_while_running() {
    let no_wordlists = Vec::new();
    let mut machine = RunStateMachine::new(script());
    machine.step(set_state(RunState::Running), &no_wordlists);
    assert_eq!(
        machine.step(
            Event::Recognition(RecognitionEvent::Recognising("hel".to_string())),
            &no_wordlists
        ),
        Action::Publish(Line::Recognising("hel".to_string()))
    );
    assert_eq!(
        machine.step(
            Event::Recognition(RecognitionEvent::Recognised("Hello.".to_string())),
            &no_wordlists
        ),
        Action::Publish(Line::Recognised("Hello.".to_string()))
    );
    assert_eq!(
        machine.step(Event::Recognition(RecognitionEvent::SessionError), &no_wordlists),
        Action::Nothing
    );
    assert_eq!(machine.run_state(), RunState::Running);
    assert_eq!(
        machine.step(Event::Recognition(RecognitionEvent::SessionEnded), &no_wordlists),
        Action::Transition {
            from: RunState::Running,
            to: RunState::Stopped
        }
    );
    assert_eq!(machine.run_state(), RunState::Stopped);
    assert_eq!(machine.session(), None);
}

#[test]
fn connect_failure_falls_back_to_stopped() {
    let no_wordlists = Vec::new();
    let mut machine = RunStateMachine::new(script());
    machine.step(set_state(RunState::Running), &no_wordlists);
    assert_eq!(
        machine.step(Event::ConnectFailed, &no_wordlists),
        Action::Transition {
            from: RunState::Running,
            to: RunState::Stopped
        }
    );
    assert_eq!(machine.run_state(), RunState::Stopped);
    assert_eq!(machine.step(Event::ConnectFailed, &no_wordlists), Action::Nothing);
}

#[test]
fn ingest_abort_stops_session_and_silences_it() {
    let no_wordlists = Vec::new();
    let mut machine = RunStateMachine::new(script());
    machine.step(set_state(RunState::Running), &no_wordlists);
    assert_eq!(
        machine.step(Event::IngestAborted, &no_wordlists),
        Action::Transition {
            from: RunState::Running,
            to: RunState::Stopped
        }
    );
    assert_eq!(machine.run_state(), RunState::Stopped);
    for event in [
        Event::Recognition(RecognitionEvent::Recognising("late".to_string())),
        Event::Recognition(RecognitionEvent::Recognised("Late.".to_string())),
        Event::Recognition(RecognitionEvent::SessionEnded),
        Event::Tick,
        Event::IngestAborted,
    ] {
        assert_eq!(machine.step(event, &no_wordlists), Action::Nothing);
        assert_eq!(machine.run_state(), RunState::Stopped);
    }
}

#[test]
fn session_events_are_ignored_in_test_mode() {
    let no_wordlists = Vec::new();
    let mut machine = RunStateMachine::new(script());
    machine.step(set_state(RunState::Test), &no_wordlists);
    assert_eq!(
        machine.step(
            Event::Recognition(RecognitionEvent::Recognised("stray".to_string())),
            &no_wordlists
        ),
        Action::Nothing
    );
    assert_eq!(machine.step(Event::IngestAborted, &no_wordlists), Action::Nothing);
    assert_eq!(machine.run_state(), RunState::Test);
}
