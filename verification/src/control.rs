//! The commands of the control bus, the session configuration they change, and
//! the replies they are answered with.

use vstd::prelude::*;
use crate::text::views;

verus! {

/// The operating mode of the captioning session.
#[derive(Copy, Clone, Debug, PartialEq, Eq, Structural)]
pub enum RunState {
    Stopped,
    Running,
    Test,
}

/// A language that the recognition service is asked to recognise.
#[derive(Copy, Clone, Debug, PartialEq, Eq, Structural)]
pub enum RecognitionLanguage {
    EnGb,
    EnIe,
    EnUs,
    JaJp,
}

/// The recognition configuration that operators adjust. It is read when a
/// session starts; a session that is under way keeps what it started with.
#[derive(Debug, PartialEq, Eq)]
pub struct SetupState {
    pub language: String,
    pub wordlist: Option<String>,
}

/// Mathematical value of a [`SetupState`].
pub struct SetupView {
    pub language: Seq<char>,
    pub wordlist: Option<Seq<char>>,
}

/// A command carried on the control bus.
#[derive(Debug, PartialEq, Eq)]
pub enum ControlMessage {
    SetState(RunState),
    GetState,
    SetLanguage(String),
    GetLanguage,
    SetWordlist(Option<String>),
    GetWordlist,
}

/// Mathematical value of a [`ControlMessage`].
pub enum ControlView {
    SetState(RunState),
    GetState,
    SetLanguage(Seq<char>),
    GetLanguage,
    SetWordlist(Option<Seq<char>>),
    GetWordlist,
}

/// The language configuration: what can be chosen, and what is.
#[derive(Debug, PartialEq, Eq)]
pub struct Language {
    pub options: Vec<String>,
    pub current: String,
}

/// Mathematical value of a [`Language`].
pub struct LanguageView {
    pub options: Seq<Seq<char>>,
    pub current: Seq<char>,
}

/// The wordlist configuration: what can be chosen, and what is.
#[derive(Debug, PartialEq, Eq)]
pub struct Wordlist {
    pub options: Vec<String>,
    pub current: Option<String>,
}

/// Mathematical value of a [`Wordlist`].
pub struct WordlistView {
    pub options: Seq<Seq<char>>,
    pub current: Option<Seq<char>>,
}

/// The answer to a query.
#[derive(Debug, PartialEq, Eq)]
pub enum Reply {
    State(RunState),
    Language(Language),
    Wordlist(Wordlist),
}

/// Mathematical value of a [`Reply`].
pub enum ReplyView {
    State(RunState),
    Language(LanguageView),
    Wordlist(WordlistView),
}

/// The view of an optional string.
pub open spec fn option_view(s: Option<String>) -> Option<Seq<char>> {
    match s {
        Some(s) => Some(s@),
        None => None,
    }
}

impl View for SetupState {
    type V = SetupView;

    open spec fn view(&self) -> SetupView {
        SetupView { language: self.language@, wordlist: option_view(self.wordlist) }
    }
}

impl View for ControlMessage {
    type V = ControlView;

    open spec fn view(&self) -> ControlView {
        match self {
            ControlMessage::SetState(state) => ControlView::SetState(*state),
            ControlMessage::GetState => ControlView::GetState,
            ControlMessage::SetLanguage(code) => ControlView::SetLanguage(code@),
            ControlMessage::GetLanguage => ControlView::GetLanguage,
            ControlMessage::SetWordlist(name) => ControlView::SetWordlist(option_view(*name)),
            ControlMessage::GetWordlist => ControlView::GetWordlist,
        }
    }
}

impl View for Language {
    type V = LanguageView;

    open spec fn view(&self) -> LanguageView {
        LanguageView { options: views(self.options@), current: self.current@ }
    }
}

impl View for Wordlist {
    type V = WordlistView;

    open spec fn view(&self) -> WordlistView {
        WordlistView { options: views(self.options@), current: option_view(self.current) }
    }
}

impl View for Reply {
    type V = ReplyView;

    open spec fn view(&self) -> ReplyView {
        match self {
            Reply::State(state) => ReplyView::State(*state),
            Reply::Language(language) => ReplyView::Language(language@),
            Reply::Wordlist(wordlist) => ReplyView::Wordlist(wordlist@),
        }
    }
}

impl ControlView {
    /// Whether the command reads or changes the language or the wordlist.
    pub open spec fn is_setup(self) -> bool {
        !(self is SetState) && !(self is GetState)
    }

    /// Whether the command is answered.
    pub open spec fn is_query(self) -> bool {
        self is GetState || self is GetLanguage || self is GetWordlist
    }
}

impl ControlMessage {
    /// Whether the command is answered: the sender of a query waits for its
    /// reply, the sender of any other command does not.
    pub fn is_query(&self) -> (query: bool)
        ensures
            query == self@.is_query(),
    {
        match self {
            ControlMessage::GetState => true,
            ControlMessage::GetLanguage => true,
            ControlMessage::GetWordlist => true,
            _ => false,
        }
    }
}

/// The language codes that can be chosen, the default first.
pub open spec fn language_codes() -> Seq<Seq<char>> {
    seq!["en-GB"@, "en-IE"@, "en-US"@, "ja-JP"@]
}

/// The language that a code stands for; a code that is none of the four stands
/// for British English.
pub open spec fn language_of(code: Seq<char>) -> RecognitionLanguage {
    if code == "en-IE"@ {
        RecognitionLanguage::EnIe
    } else if code == "en-US"@ {
        RecognitionLanguage::EnUs
    } else if code == "ja-JP"@ {
        RecognitionLanguage::JaJp
    } else {
        RecognitionLanguage::EnGb
    }
}

/// The configuration after a command: a language or a wordlist is taken only if
/// it is among the options, and no wordlist can always be chosen.
pub open spec fn setup_after(
    setup: SetupView,
    msg: ControlView,
    wordlists: Seq<Seq<char>>,
) -> SetupView {
    match msg {
        ControlView::SetLanguage(code) => if language_codes().contains(code) {
            SetupView { language: code, wordlist: setup.wordlist }
        } else {
            setup
        },
        ControlView::SetWordlist(Some(name)) => if wordlists.contains(name) {
            SetupView { language: setup.language, wordlist: Some(name) }
        } else {
            setup
        },
        ControlView::SetWordlist(None) => SetupView { language: setup.language, wordlist: None },
        _ => setup,
    }
}

/// The answer that a command about the language or the wordlist gets.
pub open spec fn setup_reply(
    setup: SetupView,
    msg: ControlView,
    wordlists: Seq<Seq<char>>,
) -> Option<ReplyView> {
    match msg {
        ControlView::GetLanguage => Some(
            ReplyView::Language(
                LanguageView { options: language_codes(), current: setup.language },
            ),
        ),
        ControlView::GetWordlist => Some(
            ReplyView::Wordlist(WordlistView { options: wordlists, current: setup.wordlist }),
        ),
        _ => None,
    }
}

/// Whether `list` holds `item`.
pub fn contains(list: &Vec<String>, item: &str) -> (found: bool)
    ensures
        found == views(list@).contains(item@),
{
    let mut i: usize = 0;
    while i < list.len()
        invariant
            i <= list.len(),
            forall|k: int| 0 <= k < i ==> views(list@)[k] != item@,
        decreases list.len() - i,
    {
        if *list[i].as_str() == *item {
            assert(views(list@)[i as int] == item@);
            return true;
        }
        i += 1;
    }
    false
}

/// A copy of a list of strings.
pub fn copy_strings(list: &Vec<String>) -> (copy: Vec<String>)
    ensures
        views(copy@) == views(list@),
{
    let mut copy: Vec<String> = Vec::new();
    let mut i: usize = 0;
    while i < list.len()
        invariant
            i <= list.len(),
            copy@.len() == i,
            forall|k: int| 0 <= k < i ==> copy@[k]@ == list@[k]@,
        decreases list.len() - i,
    {
        copy.push(list[i].clone());
        i += 1;
    }
    assert(views(copy@) =~= views(list@));
    copy
}

/// A copy of an optional string.
pub fn copy_option(s: &Option<String>) -> (copy: Option<String>)
    ensures
        option_view(copy) == option_view(*s),
{
    match s {
        Some(s) => Some(s.clone()),
        None => None,
    }
}

/// The language codes that can be chosen, the default first.
pub fn language_options() -> (options: Vec<String>)
    ensures
        views(options@) == language_codes(),
{
    let mut options: Vec<String> = Vec::new();
    options.push("en-GB".to_owned());
    options.push("en-IE".to_owned());
    options.push("en-US".to_owned());
    options.push("ja-JP".to_owned());
    assert(views(options@) =~= language_codes());
    options
}

/// The language that the recognition service is asked for under `code`.
pub fn language_from_code(code: &str) -> (language: RecognitionLanguage)
    ensures
        language == language_of(code@),
{
    if *code == *"en-IE" {
        RecognitionLanguage::EnIe
    } else if *code == *"en-US" {
        RecognitionLanguage::EnUs
    } else if *code == *"ja-JP" {
        RecognitionLanguage::JaJp
    } else {
        RecognitionLanguage::EnGb
    }
}

impl Default for SetupState {
    fn default() -> (setup: SetupState)
        ensures
            setup@ == (SetupView { language: language_codes()[0], wordlist: None }),
    {
        SetupState { language: "en-GB".to_owned(), wordlist: None }
    }
}

/// Serves a command about the language or the wordlist. `wordlists` are the
/// wordlists that can be chosen at this moment. A choice that is not among the
/// options changes nothing and is not answered: the next query shows what is
/// in force.
pub fn handle_lang_and_wordlist(
    msg: ControlMessage,
    setup_state: &mut SetupState,
    wordlists: &Vec<String>,
) -> (reply: Option<Reply>)
    requires
        msg@.is_setup(),
    ensures
        final(setup_state)@ == setup_after(old(setup_state)@, msg@, views(wordlists@)),
        match reply {
            Some(reply) => setup_reply(old(setup_state)@, msg@, views(wordlists@)) == Some(reply@),
            None => setup_reply(old(setup_state)@, msg@, views(wordlists@)) is None,
        },
{
    match msg {
        ControlMessage::GetLanguage => Some(
            Reply::Language(
                Language { options: language_options(), current: setup_state.language.clone() },
            ),
        ),
        ControlMessage::SetLanguage(choice) => {
            let options = language_options();
            if contains(&options, choice.as_str()) {
                setup_state.language = choice;
            }
            None
        },
        ControlMessage::GetWordlist => Some(
            Reply::Wordlist(
                Wordlist {
                    options: copy_strings(wordlists),
                    current: copy_option(&setup_state.wordlist),
                },
            ),
        ),
        ControlMessage::SetWordlist(choice) => {
            match choice {
                Some(choice) => {
                    if contains(wordlists, choice.as_str()) {
                        setup_state.wordlist = Some(choice);
                    }
                },
                None => {
                    setup_state.wordlist = None;
                },
            }
            None
        },
        ControlMessage::SetState(_) => None,
        ControlMessage::GetState => None,
    }
}

} // verus!
