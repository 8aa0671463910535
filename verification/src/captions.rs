//! What a viewer of the captions keeps: the last finished sentences, the
//! hypothesis under way, and the state of its connection.

use std::collections::VecDeque;
use vstd::prelude::*;
use crate::control::option_view;
use crate::line::{Line, LineView};
use crate::text::views;
use crate::wire::read_wire;

verus! {

/// How many finished sentences a viewer keeps.
pub const CAPTION_BUFFER_LEN: usize = 5;

/// The form value that stands for "no wordlist".
pub open spec fn no_wordlist_value() -> Seq<char> {
    "special-value-for-none"@
}

/// The state of a viewer's connection to the transcript hub.
#[derive(Copy, Clone, Debug, PartialEq, Eq, Structural)]
pub enum ConnectionState {
    Disconnected,
    Connecting,
    Connected,
}

/// Mathematical value of a [`CaptionBuffer`].
pub struct CaptionView {
    /// The finished sentences on show, the oldest first.
    pub sentences: Seq<Seq<char>>,
    /// The hypothesis under way.
    pub active: Option<Seq<char>>,
}

/// The captions on show.
pub struct CaptionBuffer {
    sentences: VecDeque<String>,
    active: Option<String>,
}

/// What happens to a viewer.
#[derive(Debug, PartialEq, Eq)]
pub enum ViewerEvent {
    /// The page was drawn.
    Rendered,
    /// The connection is open.
    Opened,
    /// A text frame came in.
    Text(String),
    /// The connection is over, and the pause that follows it too.
    Finished,
}

/// Mathematical value of a [`ViewerEvent`].
pub enum ViewerEventView {
    Rendered,
    Opened,
    Text(Seq<char>),
    Finished,
}

/// What the page is to do next.
#[derive(Copy, Clone, Debug, PartialEq, Eq, Structural)]
pub enum ViewerAction {
    Nothing,
    /// Open a connection to the hub.
    Connect,
    /// Draw the captions again.
    Redraw,
    /// Give the connection up, pause, and report `Finished`.
    HangUp,
}

impl View for ViewerEvent {
    type V = ViewerEventView;

    open spec fn view(&self) -> ViewerEventView {
        match self {
            ViewerEvent::Rendered => ViewerEventView::Rendered,
            ViewerEvent::Opened => ViewerEventView::Opened,
            ViewerEvent::Text(text) => ViewerEventView::Text(text@),
            ViewerEvent::Finished => ViewerEventView::Finished,
        }
    }
}

impl Default for ConnectionState {
    fn default() -> (state: ConnectionState)
        ensures
            state == ConnectionState::Disconnected,
    {
        ConnectionState::Disconnected
    }
}

impl ConnectionState {
    /// Whether there is no connection and none is being opened.
    pub fn is_disconnected(&self) -> (disconnected: bool)
        ensures
            disconnected == (*self == ConnectionState::Disconnected),
    {
        match self {
            ConnectionState::Disconnected => true,
            _ => false,
        }
    }
}

impl CaptionView {
    /// What holds of every buffer: it keeps no more sentences than it has room
    /// for.
    pub open spec fn wf(self) -> bool {
        self.sentences.len() <= CAPTION_BUFFER_LEN
    }

    /// The captions after `line` came in. A hypothesis replaces the one under
    /// way; a finished sentence joins the sentences, the oldest making room
    /// when the buffer is full, and ends the hypothesis.
    pub open spec fn push(self, line: LineView) -> CaptionView {
        match line {
            LineView::Recognising(text) => CaptionView {
                sentences: self.sentences,
                active: Some(text),
            },
            LineView::Recognised(text) => CaptionView {
                sentences: if self.sentences.len() >= CAPTION_BUFFER_LEN {
                    self.sentences.skip(1).push(text)
                } else {
                    self.sentences.push(text)
                },
                active: None,
            },
        }
    }
}

impl View for CaptionBuffer {
    type V = CaptionView;

    closed spec fn view(&self) -> CaptionView {
        CaptionView { sentences: views(self.sentences@), active: option_view(self.active) }
    }
}

impl Default for CaptionBuffer {
    fn default() -> (buffer: CaptionBuffer)
        ensures
            buffer.wf(),
            buffer@ == (CaptionView { sentences: Seq::empty(), active: None }),
    {
        let buffer = CaptionBuffer {
            sentences: VecDeque::with_capacity(CAPTION_BUFFER_LEN),
            active: None,
        };
        assert(views(buffer.sentences@) =~= Seq::<Seq<char>>::empty());
        buffer
    }
}

impl CaptionBuffer {
    /// What holds of every buffer.
    pub open spec fn wf(&self) -> bool {
        self@.wf()
    }

    /// Takes a line in.
    pub fn push(&mut self, line: Line)
        requires
            old(self).wf(),
        ensures
            final(self).wf(),
            final(self)@ == old(self)@.push(line@),
    {
        let ghost before = views(self.sentences@);
        match line {
            Line::Recognising(text) => {
                self.active = Some(text);
            },
            Line::Recognised(text) => {
                if self.sentences.len() >= CAPTION_BUFFER_LEN {
                    let _ = self.sentences.pop_front();
                }
                let ghost rest = views(self.sentences@);
                self.sentences.push_back(text);
                self.active = None;
                proof {
                    assert(rest =~= if before.len() >= CAPTION_BUFFER_LEN {
                        before.skip(1)
                    } else {
                        before
                    });
                    assert(views(self.sentences@) =~= rest.push(text@));
                }
            },
        }
    }

    /// The finished sentences on show, the oldest first.
    pub fn sentences(&self) -> (sentences: Vec<String>)
        ensures
            views(sentences@) == self@.sentences,
    {
        let mut sentences: Vec<String> = Vec::new();
        let mut i: usize = 0;
        while i < self.sentences.len()
            invariant
                i <= self.sentences.len(),
                sentences@.len() == i,
                forall|k: int| 0 <= k < i ==> sentences@[k]@ == self.sentences@[k]@,
            decreases self.sentences.len() - i,
        {
            sentences.push(self.sentences[i].clone());
            i += 1;
        }
        assert(views(sentences@) =~= views(self.sentences@));
        sentences
    }

    /// The hypothesis under way.
    pub fn active(&self) -> (active: Option<&String>)
        ensures
            match active {
                Some(text) => self@.active == Some(text@),
                None => self@.active is None,
            },
    {
        self.active.as_ref()
    }
}

/// The connection state after an event: drawing the page while disconnected
/// starts a connection, and a connection that is over leaves the viewer
/// disconnected.
pub open spec fn connection_after(state: ConnectionState, event: ViewerEventView) -> ConnectionState {
    match event {
        ViewerEventView::Rendered => if state == ConnectionState::Disconnected {
            ConnectionState::Connecting
        } else {
            state
        },
        ViewerEventView::Opened => ConnectionState::Connected,
        ViewerEventView::Text(_) => state,
        ViewerEventView::Finished => ConnectionState::Disconnected,
    }
}

/// The captions after an event: a text frame that is a line is taken in.
pub open spec fn captions_after(captions: CaptionView, event: ViewerEventView) -> CaptionView {
    match event {
        ViewerEventView::Text(text) => match read_wire(text) {
            Some(line) => captions.push(line),
            None => captions,
        },
        _ => captions,
    }
}

/// What the page does on an event. A text frame that is no line ends the
/// connection.
pub open spec fn viewer_action(state: ConnectionState, event: ViewerEventView) -> ViewerAction {
    match event {
        ViewerEventView::Rendered => if state == ConnectionState::Disconnected {
            ViewerAction::Connect
        } else {
            ViewerAction::Nothing
        },
        ViewerEventView::Opened => ViewerAction::Nothing,
        ViewerEventView::Text(text) => if read_wire(text) is Some {
            ViewerAction::Redraw
        } else {
            ViewerAction::HangUp
        },
        ViewerEventView::Finished => ViewerAction::Nothing,
    }
}

/// Takes one event of a viewer, moves its connection state and its captions
/// on, and says what the page is to do.
pub fn viewer_step(
    state: &mut ConnectionState,
    captions: &mut CaptionBuffer,
    event: ViewerEvent,
) -> (action: ViewerAction)
    requires
        old(captions).wf(),
    ensures
        final(captions).wf(),
        *final(state) == connection_after(*old(state), event@),
        final(captions)@ == captions_after(old(captions)@, event@),
        action == viewer_action(*old(state), event@),
{
    match event {
        ViewerEvent::Rendered => {
            if state.is_disconnected() {
                *state = ConnectionState::Connecting;
                ViewerAction::Connect
            } else {
                ViewerAction::Nothing
            }
        },
        ViewerEvent::Opened => {
            *state = ConnectionState::Connected;
            ViewerAction::Nothing
        },
        ViewerEvent::Text(text) => match Line::from_wire(text.as_str()) {
            Some(line) => {
                captions.push(line);
                ViewerAction::Redraw
            },
            None => ViewerAction::HangUp,
        },
        ViewerEvent::Finished => {
            *state = ConnectionState::Disconnected;
            ViewerAction::Nothing
        },
    }
}

/// The wordlist that a form value chooses: the value itself, or none for the
/// value that stands for none.
pub fn wordlist_choice(value: String) -> (choice: Option<String>)
    ensures
        option_view(choice) == if value@ == no_wordlist_value() {
            None
        } else {
            Some(value@)
        },
{
    if *value.as_str() == *"special-value-for-none" {
        None
    } else {
        Some(value)
    }
}

/// The captions after each of `lines` came in, in turn.
pub open spec fn push_all(captions: CaptionView, lines: Seq<LineView>) -> CaptionView
    decreases lines.len(),
{
    if lines.len() == 0 {
        captions
    } else {
        push_all(captions, lines.drop_last()).push(lines.last())
    }
}

/// A buffer never holds more sentences than it has room for, whatever comes
/// in, and the sentence that came in last is the last on show.
pub proof fn law_captions_stay_bounded(captions: CaptionView, lines: Seq<LineView>)
    requires
        captions.wf(),
    ensures
        push_all(captions, lines).wf(),
        lines.len() > 0 ==> match lines.last() {
            LineView::Recognising(text) => push_all(captions, lines).active == Some(text),
            LineView::Recognised(text) => push_all(captions, lines).active is None && push_all(
                captions,
                lines,
            ).sentences.last() == text,
        },
    decreases lines.len(),
{
    if lines.len() > 0 {
        law_captions_stay_bounded(captions, lines.drop_last());
    }
}

} // verus!
