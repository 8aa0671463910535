//! The wire form of a transcript line: a JSON object with one member, whose
//! name tells a partial hypothesis from a finished sentence and whose value is
//! the text.

use vstd::prelude::*;
use vstd::string::StringExecFns;
use crate::control::option_view;
use crate::line::{Line, LineView};
use crate::text::{strip_prefix, strip_suffix};

verus! {

/// The JSON text that `serde_json::to_string` writes for a string, quotes
/// included, where it writes one.
pub uninterp spec fn json_literal(text: Seq<char>) -> Option<Seq<char>>;

/// The string that `serde_json::from_str` reads from a JSON text, where the
/// text is a JSON string.
pub uninterp spec fn json_text(json: Seq<char>) -> Option<Seq<char>>;

/// `serde_json::to_string` on a string: the string as a JSON string literal.
#[verifier::external_body]
fn to_json(text: &str) -> (json: Option<String>)
    ensures
        option_view(json) == json_literal(text@),
{
    serde_json::to_string(text).ok()
}

/// `serde_json::from_str` for a `String`: the string that a JSON text denotes,
/// if it denotes one. It reads back every literal that `serde_json::to_string`
/// writes for a string.
#[verifier::external_body]
fn from_json(json: &str) -> (text: Option<String>)
    ensures
        option_view(text) == json_text(json@),
        forall|written: Seq<char>|
            json_literal(written) == Some(json@) ==> option_view(text) == Some(written),
{
    serde_json::from_str::<String>(json).ok()
}

/// What stands in front of the text in the wire form of a line.
pub open spec fn wire_open(finished: bool) -> Seq<char> {
    if finished {
        "{\"Recognised\":"@
    } else {
        "{\"Recognising\":"@
    }
}

/// What stands behind the text in the wire form of a line.
pub open spec fn wire_close() -> Seq<char> {
    "}"@
}

/// A line's text as a JSON literal, put between the opening for its kind and
/// the closing brace.
pub open spec fn framed(finished: bool, literal: Seq<char>) -> Seq<char> {
    wire_open(finished) + literal + wire_close()
}

/// The wire form of a line.
pub open spec fn wire_form(line: LineView) -> Option<Seq<char>> {
    match json_literal(line.text()) {
        Some(literal) => Some(framed(line is Recognised, literal)),
        None => None,
    }
}

/// What stands between the opening for a kind of line and the closing brace,
/// where `wire` has both.
pub open spec fn unframed(finished: bool, wire: Seq<char>) -> Option<Seq<char>> {
    let open = wire_open(finished);
    if open.is_prefix_of(wire) && wire_close().is_suffix_of(wire.skip(open.len() as int)) {
        Some(wire.subrange(open.len() as int, wire.len() - 1))
    } else {
        None
    }
}

/// The line with the given text.
pub open spec fn line_of(finished: bool, text: Seq<char>) -> LineView {
    if finished {
        LineView::Recognised(text)
    } else {
        LineView::Recognising(text)
    }
}

/// The line that a wire text denotes.
pub open spec fn read_wire(wire: Seq<char>) -> Option<LineView> {
    match unframed(false, wire) {
        Some(literal) => match json_text(literal) {
            Some(text) => Some(line_of(false, text)),
            None => None,
        },
        None => match unframed(true, wire) {
            Some(literal) => match json_text(literal) {
                Some(text) => Some(line_of(true, text)),
                None => None,
            },
            None => None,
        },
    }
}

/// The view of an optional line.
pub open spec fn option_line_view(line: Option<Line>) -> Option<LineView> {
    match line {
        Some(line) => Some(line@),
        None => None,
    }
}

/// A frame gives back what was put into it, and is no frame of the other kind:
/// the two openings differ in their eleventh character.
pub proof fn law_frames_are_told_apart(finished: bool, literal: Seq<char>)
    ensures
        unframed(finished, framed(finished, literal)) == Some(literal),
        unframed(!finished, framed(finished, literal)) is None,
{
    reveal_strlit("{\"Recognised\":");
    reveal_strlit("{\"Recognising\":");
    reveal_strlit("}");
    let wire = framed(finished, literal);
    let open = wire_open(finished);
    assert(wire.subrange(0, open.len() as int) =~= open);
    assert(wire.skip(open.len() as int) =~= literal + wire_close());
    assert((literal + wire_close()).subrange(literal.len() as int, literal.len() as int + 1)
        =~= wire_close());
    assert(wire.subrange(open.len() as int, wire.len() - 1) =~= literal);
    let other = wire_open(!finished);
    assert(open[10] != other[10]);
    assert(wire[10] == open[10]);
    if other.is_prefix_of(wire) {
        assert(wire.subrange(0, other.len() as int)[10] == other[10]);
    }
}

/// Puts a JSON literal into the frame for its kind of line.
pub fn frame(finished: bool, literal: &str) -> (wire: String)
    ensures
        wire@ == framed(finished, literal@),
{
    let mut wire = if finished {
        String::from_str("{\"Recognised\":")
    } else {
        String::from_str("{\"Recognising\":")
    };
    wire.append(literal);
    wire.append("}");
    wire
}

/// Takes a wire text out of the frame for a kind of line.
pub fn unframe(finished: bool, wire: &str) -> (literal: Option<&str>)
    ensures
        match literal {
            Some(literal) => unframed(finished, wire@) == Some(literal@),
            None => unframed(finished, wire@) is None,
        },
{
    let open = if finished {
        "{\"Recognised\":"
    } else {
        "{\"Recognising\":"
    };
    match strip_prefix(wire, open) {
        Some(rest) => {
            assert(wire@.skip(open@.len() as int) =~= rest@);
            assert(open@.is_prefix_of(wire@));
            match strip_suffix(rest, "}") {
                Some(literal) => {
                    proof {
                        reveal_strlit("}");
                        assert(wire@.subrange(open@.len() as int, wire@.len() - 1) =~= literal@);
                        assert(rest@.subrange(rest@.len() - 1, rest@.len() as int) =~= "}"@);
                    }
                    Some(literal)
                },
                None => None,
            }
        },
        None => None,
    }
}

impl Line {
    /// The wire form of the line.
    pub fn to_wire(&self) -> (wire: Option<String>)
        ensures
            option_view(wire) == wire_form(self@),
    {
        match to_json(self.text().as_str()) {
            Some(literal) => Some(frame(self.is_final(), literal.as_str())),
            None => None,
        }
    }

    /// Reads a line from its wire form. Every wire form that [`Line::to_wire`]
    /// writes is read back as the line it was written for.
    pub fn from_wire(wire: &str) -> (line: Option<Line>)
        ensures
            option_line_view(line) == read_wire(wire@),
            forall|written: LineView|
                wire_form(written) == Some(wire@) ==> option_line_view(line) == Some(written),
    {
        let (finished, literal) = match unframe(false, wire) {
            Some(literal) => (false, literal),
            None => match unframe(true, wire) {
                Some(literal) => (true, literal),
                None => {
                    assert forall|written: LineView| wire_form(written) == Some(wire@) implies false by {
                        law_frames_are_told_apart(written is Recognised, json_literal(written.text())->0);
                    }
                    return None;
                },
            },
        };
        let text = from_json(literal);
        assert forall|written: LineView| wire_form(written) == Some(wire@) implies json_literal(
            written.text(),
        ) == Some(literal@) && (written is Recognised) == finished by {
            law_frames_are_told_apart(written is Recognised, json_literal(written.text())->0);
        }
        match text {
            Some(text) => Some(
                if finished {
                    Line::Recognised(text)
                } else {
                    Line::Recognising(text)
                },
            ),
            None => None,
        }
    }
}

} // verus!
