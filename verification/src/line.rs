//! Transcript lines and the textual form in which scripts record them.

use vstd::prelude::*;
use crate::text::{lines_with_content, non_empty_lines, strip_prefix, views};

verus! {

/// One unit of transcript.
#[derive(Debug, PartialEq, Eq)]
pub enum Line {
    /// A partial hypothesis, superseded by the next line.
    Recognising(String),
    /// A finished sentence.
    Recognised(String),
}

/// Mathematical value of a [`Line`].
pub enum LineView {
    Recognising(Seq<char>),
    Recognised(Seq<char>),
}

/// A text that is no transcript line.
#[derive(Debug, PartialEq, Eq)]
pub struct InvalidInput;

/// What a script writes in front of a partial hypothesis.
pub open spec fn prefix_recognising() -> Seq<char> {
    "RECOGNIZING: "@
}

/// What a script writes in front of a finished sentence.
pub open spec fn prefix_recognised() -> Seq<char> {
    "RECOGNIZED: "@
}

/// The line that a text stands for: the text behind one of the two prefixes.
pub open spec fn parse_line(s: Seq<char>) -> Option<LineView> {
    if prefix_recognising().is_prefix_of(s) {
        Some(LineView::Recognising(s.skip(prefix_recognising().len() as int)))
    } else if prefix_recognised().is_prefix_of(s) {
        Some(LineView::Recognised(s.skip(prefix_recognised().len() as int)))
    } else {
        None
    }
}

/// The views of a vector of lines.
pub open spec fn line_views(lines: Seq<Line>) -> Seq<LineView> {
    lines.map_values(|line: Line| line@)
}

impl View for Line {
    type V = LineView;

    open spec fn view(&self) -> LineView {
        match self {
            Line::Recognising(text) => LineView::Recognising(text@),
            Line::Recognised(text) => LineView::Recognised(text@),
        }
    }
}

impl Clone for Line {
    fn clone(&self) -> (copy: Line)
        ensures
            copy@ == self@,
    {
        match self {
            Line::Recognising(text) => Line::Recognising(text.clone()),
            Line::Recognised(text) => Line::Recognised(text.clone()),
        }
    }
}

impl LineView {
    /// The words of the line.
    pub open spec fn text(self) -> Seq<char> {
        match self {
            LineView::Recognising(text) => text,
            LineView::Recognised(text) => text,
        }
    }
}

impl Line {
    /// Reads a line of a script: `RECOGNIZING: ` and a partial hypothesis, or
    /// `RECOGNIZED: ` and a finished sentence.
    pub fn from_str(s: &str) -> (parsed: Result<Line, InvalidInput>)
        ensures
            match parsed {
                Ok(line) => parse_line(s@) == Some(line@),
                Err(_) => parse_line(s@) is None,
            },
    {
        if let Some(text) = strip_prefix(s, "RECOGNIZING: ") {
            proof {
                assert(prefix_recognising().is_prefix_of(s@));
                assert(s@.skip(prefix_recognising().len() as int) =~= text@);
            }
            Ok(Line::Recognising(text.to_owned()))
        } else if let Some(text) = strip_prefix(s, "RECOGNIZED: ") {
            proof {
                assert(prefix_recognised().is_prefix_of(s@));
                assert(s@.skip(prefix_recognised().len() as int) =~= text@);
            }
            Ok(Line::Recognised(text.to_owned()))
        } else {
            Err(InvalidInput)
        }
    }

    /// The words of the line.
    pub fn text(&self) -> (text: &String)
        ensures
            text@ == self@.text(),
    {
        match self {
            Line::Recognising(text) => text,
            Line::Recognised(text) => text,
        }
    }

    /// Whether the line is a finished sentence.
    pub fn is_final(&self) -> (done: bool)
        ensures
            done == (self@ is Recognised),
    {
        match self {
            Line::Recognising(_) => false,
            Line::Recognised(_) => true,
        }
    }
}

impl InvalidInput {
    /// The wording of the error.
    pub fn message(&self) -> (text: String)
        ensures
            text@ == "Invalid input"@,
    {
        "Invalid input".to_owned()
    }
}

impl core::str::FromStr for Line {
    type Err = InvalidInput;

    /// Reads a line of a script, as [`Line::from_str`] does.
    fn from_str(s: &str) -> (parsed: Result<Line, InvalidInput>)
        ensures
            match parsed {
                Ok(line) => parse_line(s@) == Some(line@),
                Err(_) => parse_line(s@) is None,
            },
    {
        Line::from_str(s)
    }
}

/// The lines that a script holds: each of its non-empty lines, read as a
/// transcript line.
pub open spec fn script_lines(text: Seq<char>) -> Seq<Option<LineView>> {
    non_empty_lines(text).map_values(|s: Seq<char>| parse_line(s))
}

/// Reads a script: one transcript line on each non-empty line of `text`. The
/// script is read whole or not at all: one line that is no transcript line
/// fails it.
pub fn parse_script(text: &str) -> (parsed: Result<Vec<Line>, InvalidInput>)
    ensures
        match parsed {
            Ok(lines) => line_views(lines@).map_values(|l: LineView| Some(l)) == script_lines(
                text@,
            ),
            Err(_) => exists|i: int|
                0 <= i < script_lines(text@).len() && #[trigger] script_lines(text@)[i] is None,
        },
{
    let source = lines_with_content(text);
    let mut lines: Vec<Line> = Vec::new();
    let mut i: usize = 0;
    while i < source.len()
        invariant
            i <= source.len(),
            views(source@) == non_empty_lines(text@),
            lines@.len() == i,
            forall|k: int| 0 <= k < i ==> script_lines(text@)[k] == Some(#[trigger] lines@[k]@),
        decreases source.len() - i,
    {
        assert(views(source@)[i as int] == source@[i as int]@);
        match Line::from_str(source[i].as_str()) {
            Ok(line) => {
                lines.push(line);
            },
            Err(err) => {
                assert(script_lines(text@)[i as int] is None);
                return Err(err);
            },
        }
        i += 1;
    }
    proof {
        assert(line_views(lines@).map_values(|l: LineView| Some(l)) =~= script_lines(text@));
    }
    Ok(lines)
}

} // verus!
