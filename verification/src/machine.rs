//! The run-state machine: the one owner of the run state and of the session
//! configuration. It is driven one event at a time and answers each event with
//! the action that its surroundings are to perform.

use vstd::arithmetic::div_mod::{lemma_mod_self_0, lemma_small_mod};
use vstd::prelude::*;
use crate::control::{
    copy_option, handle_lang_and_wordlist, language_from_code, language_of, option_view,
    setup_after, setup_reply, ControlMessage, ControlView, RecognitionLanguage, Reply, ReplyView,
    RunState, SetupState, SetupView,
};
use crate::line::{line_views, Line, LineView};
use crate::text::views;

verus! {

/// Milliseconds between two lines of test mode.
pub const TICK_INTERVAL_MS: u64 = 300;

/// What a recognition session was started with.
#[derive(Debug, PartialEq, Eq)]
pub struct SessionConfig {
    pub language: RecognitionLanguage,
    pub wordlist: Option<String>,
}

/// Mathematical value of a [`SessionConfig`].
pub struct SessionView {
    pub language: RecognitionLanguage,
    pub wordlist: Option<Seq<char>>,
}

/// What the recognition session reports.
#[derive(Debug, PartialEq, Eq)]
pub enum RecognitionEvent {
    /// A partial hypothesis.
    Recognising(String),
    /// A finished sentence.
    Recognised(String),
    /// The event stream reported an error and goes on.
    SessionError,
    /// The event stream is at its end.
    SessionEnded,
}

/// Mathematical value of a [`RecognitionEvent`].
pub enum RecognitionView {
    Recognising(Seq<char>),
    Recognised(Seq<char>),
    SessionError,
    SessionEnded,
}

/// What the machine is woken by.
#[derive(Debug, PartialEq, Eq)]
pub enum Event {
    /// The next command from the control bus.
    Control(ControlMessage),
    /// The timer of test mode fired.
    Tick,
    /// The recognition session produced an event.
    Recognition(RecognitionEvent),
    /// The recognition session could not be opened.
    ConnectFailed,
    /// Audio ingestion gave up.
    IngestAborted,
}

/// Mathematical value of an [`Event`].
pub enum EventView {
    Control(ControlView),
    Tick,
    Recognition(RecognitionView),
    ConnectFailed,
    IngestAborted,
}

/// What the surroundings are to do after an event.
#[derive(Debug, PartialEq, Eq)]
pub enum Action {
    Nothing,
    /// Answer the query.
    Reply(Reply),
    /// Hand the line to the transcript hub.
    Publish(Line),
    /// Tear down what belongs to `from`, then bring up what belongs to `to`.
    Transition { from: RunState, to: RunState },
}

/// Mathematical value of an [`Action`].
pub enum ActionView {
    Nothing,
    Reply(ReplyView),
    Publish(LineView),
    Transition { from: RunState, to: RunState },
}

/// Mathematical value of a [`RunStateMachine`].
pub struct MachineView {
    pub run_state: RunState,
    pub setup: SetupView,
    /// What the session under way was started with.
    pub session: Option<SessionView>,
    /// The canned lines of test mode.
    pub script: Seq<LineView>,
    /// The place in the script of the line that the next tick emits.
    pub cursor: int,
}

impl View for SessionConfig {
    type V = SessionView;

    open spec fn view(&self) -> SessionView {
        SessionView { language: self.language, wordlist: option_view(self.wordlist) }
    }
}

impl View for RecognitionEvent {
    type V = RecognitionView;

    open spec fn view(&self) -> RecognitionView {
        match self {
            RecognitionEvent::Recognising(text) => RecognitionView::Recognising(text@),
            RecognitionEvent::Recognised(text) => RecognitionView::Recognised(text@),
            RecognitionEvent::SessionError => RecognitionView::SessionError,
            RecognitionEvent::SessionEnded => RecognitionView::SessionEnded,
        }
    }
}

impl View for Event {
    type V = EventView;

    open spec fn view(&self) -> EventView {
        match self {
            Event::Control(msg) => EventView::Control(msg@),
            Event::Tick => EventView::Tick,
            Event::Recognition(event) => EventView::Recognition(event@),
            Event::ConnectFailed => EventView::ConnectFailed,
            Event::IngestAborted => EventView::IngestAborted,
        }
    }
}

impl View for Action {
    type V = ActionView;

    open spec fn view(&self) -> ActionView {
        match self {
            Action::Nothing => ActionView::Nothing,
            Action::Reply(reply) => ActionView::Reply(reply@),
            Action::Publish(line) => ActionView::Publish(line@),
            Action::Transition { from, to } => ActionView::Transition { from: *from, to: *to },
        }
    }
}

/// What a session that starts under `setup` is started with.
pub open spec fn snapshot(setup: SetupView) -> SessionView {
    SessionView { language: language_of(setup.language), wordlist: setup.wordlist }
}

impl EventView {
    /// Whether the event ends a session that is under way.
    pub open spec fn ends_session(self) -> bool {
        self is ConnectFailed || self is IngestAborted || self == EventView::Recognition(
            RecognitionView::SessionEnded,
        )
    }
}

/// The run state after an event: a `SetState` command sets it, and the end of
/// the session takes `Running` back to `Stopped`.
pub open spec fn next_run_state(state: RunState, event: EventView) -> RunState {
    match event {
        EventView::Control(ControlView::SetState(target)) => target,
        _ => if event.ends_session() && state == RunState::Running {
            RunState::Stopped
        } else {
            state
        },
    }
}

/// The line that a recognition event carries.
pub open spec fn recognised_line(event: RecognitionView) -> Option<LineView> {
    match event {
        RecognitionView::Recognising(text) => Some(LineView::Recognising(text)),
        RecognitionView::Recognised(text) => Some(LineView::Recognised(text)),
        _ => None,
    }
}

impl MachineView {
    /// What holds of every machine: the script is not empty, the cursor is
    /// inside it and at its head outside test mode, and there is a session
    /// exactly while `Running`.
    pub open spec fn wf(self) -> bool {
        &&& 0 <= self.cursor < self.script.len()
        &&& self.run_state != RunState::Test ==> self.cursor == 0
        &&& self.session is Some <==> self.run_state == RunState::Running
    }

    /// The machine after `event`, where `wordlists` can be chosen.
    pub open spec fn step(self, event: EventView, wordlists: Seq<Seq<char>>) -> MachineView {
        let next = next_run_state(self.run_state, event);
        MachineView {
            run_state: next,
            setup: match event {
                EventView::Control(msg) => setup_after(self.setup, msg, wordlists),
                _ => self.setup,
            },
            session: if next != RunState::Running {
                None
            } else if self.run_state == RunState::Running {
                self.session
            } else {
                Some(snapshot(self.setup))
            },
            script: self.script,
            cursor: if next != RunState::Test {
                0
            } else if event is Tick {
                (self.cursor + 1) % (self.script.len() as int)
            } else {
                self.cursor
            },
        }
    }

    /// What the surroundings are to do after `event`.
    pub open spec fn action(self, event: EventView, wordlists: Seq<Seq<char>>) -> ActionView {
        match event {
            EventView::Control(ControlView::SetState(target)) => if target != self.run_state {
                ActionView::Transition { from: self.run_state, to: target }
            } else {
                ActionView::Nothing
            },
            EventView::Control(ControlView::GetState) => ActionView::Reply(
                ReplyView::State(self.run_state),
            ),
            EventView::Control(msg) => match setup_reply(self.setup, msg, wordlists) {
                Some(reply) => ActionView::Reply(reply),
                None => ActionView::Nothing,
            },
            EventView::Tick => if self.run_state == RunState::Test {
                ActionView::Publish(self.script[self.cursor])
            } else {
                ActionView::Nothing
            },
            EventView::Recognition(recognition) => match recognised_line(recognition) {
                Some(line) => if self.run_state == RunState::Running {
                    ActionView::Publish(line)
                } else {
                    ActionView::Nothing
                },
                None => if event.ends_session() && self.run_state == RunState::Running {
                    ActionView::Transition { from: RunState::Running, to: RunState::Stopped }
                } else {
                    ActionView::Nothing
                },
            },
            _ => if self.run_state == RunState::Running {
                ActionView::Transition { from: RunState::Running, to: RunState::Stopped }
            } else {
                ActionView::Nothing
            },
        }
    }
}

/// The single owner of the run state and of the session configuration.
pub struct RunStateMachine {
    run_state: RunState,
    setup: SetupState,
    session: Option<SessionConfig>,
    script: Vec<Line>,
    cursor: usize,
}

impl View for RunStateMachine {
    type V = MachineView;

    closed spec fn view(&self) -> MachineView {
        MachineView {
            run_state: self.run_state,
            setup: self.setup@,
            session: match self.session {
                Some(session) => Some(session@),
                None => None,
            },
            script: line_views(self.script@),
            cursor: self.cursor as int,
        }
    }
}

impl RunStateMachine {
    /// What holds of every machine.
    pub open spec fn wf(&self) -> bool {
        self@.wf()
    }

    /// A machine that is `Stopped`, with the default configuration and `script`
    /// as the canned lines of test mode.
    pub fn new(script: Vec<Line>) -> (machine: RunStateMachine)
        requires
            script@.len() > 0,
        ensures
            machine.wf(),
            machine@ == (MachineView {
                run_state: RunState::Stopped,
                setup: SetupView { language: "en-GB"@, wordlist: None },
                session: None,
                script: line_views(script@),
                cursor: 0,
            }),
    {
        RunStateMachine {
            run_state: RunState::Stopped,
            setup: SetupState::default(),
            session: None,
            script,
            cursor: 0,
        }
    }

    /// The run state.
    pub fn run_state(&self) -> (state: RunState)
        ensures
            state == self@.run_state,
    {
        self.run_state
    }

    /// The configuration that the next session will start with.
    pub fn setup(&self) -> (setup: &SetupState)
        ensures
            setup@ == self@.setup,
    {
        &self.setup
    }

    /// What the session under way was started with, if there is one.
    pub fn session(&self) -> (session: Option<&SessionConfig>)
        ensures
            match session {
                Some(session) => self@.session == Some(session@),
                None => self@.session is None,
            },
    {
        self.session.as_ref()
    }

    /// The place in the script of the line that the next tick emits.
    pub fn cursor(&self) -> (cursor: usize)
        ensures
            cursor == self@.cursor,
    {
        self.cursor
    }

    /// Takes one event and says what is to be done. `wordlists` are the
    /// wordlists that can be chosen at this moment.
    pub fn step(&mut self, event: Event, wordlists: &Vec<String>) -> (action: Action)
        requires
            old(self).wf(),
        ensures
            final(self).wf(),
            final(self)@ == old(self)@.step(event@, views(wordlists@)),
            action@ == old(self)@.action(event@, views(wordlists@)),
    {
        match self.run_state {
            RunState::Stopped => self.wait_for_transition(event, wordlists),
            RunState::Running => self.do_run(event, wordlists),
            RunState::Test => self.run_test(event, wordlists),
        }
    }

    /// One event while `Stopped`: commands are served, and whatever a session
    /// or the timer still sends is passed over.
    fn wait_for_transition(&mut self, event: Event, wordlists: &Vec<String>) -> (action: Action)
        requires
            old(self).wf(),
            old(self)@.run_state == RunState::Stopped,
        ensures
            final(self).wf(),
            final(self)@ == old(self)@.step(event@, views(wordlists@)),
            action@ == old(self)@.action(event@, views(wordlists@)),
    {
        match event {
            Event::Control(msg) => self.serve(msg, wordlists),
            _ => Action::Nothing,
        }
    }

    /// One event while `Running`: what the session recognises is published, an
    /// error of the event stream is passed over, and the end of the session
    /// takes the machine back to `Stopped`.
    fn do_run(&mut self, event: Event, wordlists: &Vec<String>) -> (action: Action)
        requires
            old(self).wf(),
            old(self)@.run_state == RunState::Running,
        ensures
            final(self).wf(),
            final(self)@ == old(self)@.step(event@, views(wordlists@)),
            action@ == old(self)@.action(event@, views(wordlists@)),
    {
        match event {
            Event::Control(msg) => self.serve(msg, wordlists),
            Event::Recognition(RecognitionEvent::Recognised(text)) => Action::Publish(
                Line::Recognised(text),
            ),
            Event::Recognition(RecognitionEvent::Recognising(text)) => Action::Publish(
                Line::Recognising(text),
            ),
            Event::Recognition(RecognitionEvent::SessionError) => Action::Nothing,
            Event::Tick => Action::Nothing,
            Event::Recognition(RecognitionEvent::SessionEnded)
            | Event::ConnectFailed
            | Event::IngestAborted => {
                self.session = None;
                self.run_state = RunState::Stopped;
                Action::Transition { from: RunState::Running, to: RunState::Stopped }
            },
        }
    }

    /// One event in test mode: each tick publishes the line under the cursor
    /// and moves the cursor on, back to the head behind the last line.
    fn run_test(&mut self, event: Event, wordlists: &Vec<String>) -> (action: Action)
        requires
            old(self).wf(),
            old(self)@.run_state == RunState::Test,
        ensures
            final(self).wf(),
            final(self)@ == old(self)@.step(event@, views(wordlists@)),
            action@ == old(self)@.action(event@, views(wordlists@)),
    {
        match event {
            Event::Control(msg) => self.serve(msg, wordlists),
            Event::Tick => {
                let len = self.script.len();
                let line = self.script[self.cursor].clone();
                proof {
                    lemma_mod_self_0(len as int);
                    if self.cursor + 1 < len {
                        lemma_small_mod((self.cursor + 1) as nat, len as nat);
                    }
                }
                self.cursor = if self.cursor + 1 == len {
                    0
                } else {
                    self.cursor + 1
                };
                Action::Publish(line)
            },
            _ => Action::Nothing,
        }
    }

    /// Serves a command, in whatever state.
    fn serve(&mut self, msg: ControlMessage, wordlists: &Vec<String>) -> (action: Action)
        requires
            old(self).wf(),
        ensures
            final(self).wf(),
            final(self)@ == old(self)@.step(EventView::Control(msg@), views(wordlists@)),
            action@ == old(self)@.action(EventView::Control(msg@), views(wordlists@)),
    {
        match msg {
            ControlMessage::SetState(target) => self.transition(target),
            ControlMessage::GetState => Action::Reply(Reply::State(self.run_state)),
            msg => {
                match handle_lang_and_wordlist(msg, &mut self.setup, wordlists) {
                    Some(reply) => Action::Reply(reply),
                    None => Action::Nothing,
                }
            },
        }
    }

    /// Moves to `target`. A session that starts takes the configuration as it
    /// is now; test mode starts at the head of the script.
    fn transition(&mut self, target: RunState) -> (action: Action)
        requires
            old(self).wf(),
        ensures
            final(self).wf(),
            final(self)@ == old(self)@.step(
                EventView::Control(ControlView::SetState(target)),
                Seq::empty(),
            ),
            action@ == old(self)@.action(
                EventView::Control(ControlView::SetState(target)),
                Seq::empty(),
            ),
    {
        let from = self.run_state;
        if target == from {
            return Action::Nothing;
        }
        self.session = match target {
            RunState::Running => Some(
                SessionConfig {
                    language: language_from_code(self.setup.language.as_str()),
                    wordlist: copy_option(&self.setup.wordlist),
                },
            ),
            _ => None,
        };
        self.cursor = 0;
        self.run_state = target;
        Action::Transition { from, to: target }
    }
}

} // verus!
