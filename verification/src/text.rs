//! Text helpers: splitting a text into lines, and the string operations of the
//! standard library that the rest of the crate relies on.

use vstd::prelude::*;

verus! {

/// Index of the first line feed in `s`, or `s.len()` when it holds none.
pub open spec fn first_line_feed(s: Seq<char>) -> int
    decreases s.len(),
{
    if s.len() == 0 || s[0] == '\n' {
        0
    } else {
        1 + first_line_feed(s.skip(1))
    }
}

/// `line` without one trailing carriage return.
pub open spec fn without_carriage_return(line: Seq<char>) -> Seq<char> {
    if line.len() > 0 && line.last() == '\r' {
        line.drop_last()
    } else {
        line
    }
}

/// The lines of a text. A line ends at a line feed, or at a carriage return
/// directly followed by a line feed; the terminator is not part of the line.
/// What follows the last line feed is a line of its own unless it is empty, and
/// is kept as it stands.
pub open spec fn split_lines(s: Seq<char>) -> Seq<Seq<char>>
    decreases s.len(),
{
    let end = first_line_feed(s);
    if s.len() == 0 {
        Seq::empty()
    } else if 0 <= end < s.len() {
        seq![without_carriage_return(s.take(end))] + split_lines(s.skip(end + 1))
    } else {
        seq![s]
    }
}

/// The lines of a text that hold at least one character.
pub open spec fn non_empty_lines(s: Seq<char>) -> Seq<Seq<char>> {
    split_lines(s).filter(|line: Seq<char>| line.len() > 0)
}

/// The views of a vector of strings.
pub open spec fn views(v: Seq<String>) -> Seq<Seq<char>> {
    v.map_values(|s: String| s@)
}

/// `==` on string slices: two slices are equal exactly when they hold the same
/// characters.
pub assume_specification[ <str as PartialEq>::eq ](a: &str, b: &str) -> (same: bool)
    ensures
        same == (a@ == b@),
;

/// `str::strip_prefix` with a string pattern: when `s` starts with `prefix` the
/// result is the remainder of `s` behind it, otherwise there is none.
#[verifier::external_body]
pub(crate) fn strip_prefix<'a>(s: &'a str, prefix: &str) -> (rest: Option<&'a str>)
    ensures
        match rest {
            Some(tail) => s@ == prefix@ + tail@,
            None => !prefix@.is_prefix_of(s@),
        },
{
    s.strip_prefix(prefix)
}

/// `str::strip_suffix` with a string pattern: when `s` ends with `suffix` the
/// result is the part of `s` in front of it, otherwise there is none.
#[verifier::external_body]
pub(crate) fn strip_suffix<'a>(s: &'a str, suffix: &str) -> (rest: Option<&'a str>)
    ensures
        match rest {
            Some(head) => s@ == head@ + suffix@,
            None => !suffix@.is_suffix_of(s@),
        },
{
    s.strip_suffix(suffix)
}

/// `str::lines`, each line copied into a `String`: the lines of `s` in order,
/// split as [`split_lines`] says.
#[verifier::external_body]
pub(crate) fn lines(s: &str) -> (out: Vec<String>)
    ensures
        views(out@) == split_lines(s@),
{
    s.lines().map(String::from).collect()
}

/// The non-empty lines of `text`, in order.
pub fn lines_with_content(text: &str) -> (kept: Vec<String>)
    ensures
        views(kept@) == non_empty_lines(text@),
{
    let all = lines(text);
    let ghost keep = |line: Seq<char>| line.len() > 0;
    let mut kept: Vec<String> = Vec::new();
    let mut i: usize = 0;
    proof {
        assert(views(all@).take(0) =~= Seq::<Seq<char>>::empty());
        assert(views(kept@) =~= Seq::<Seq<char>>::empty());
    }
    while i < all.len()
        invariant
            i <= all.len(),
            keep == |line: Seq<char>| line.len() > 0,
            views(kept@) == views(all@).take(i as int).filter(keep),
        decreases all.len() - i,
    {
        let ghost before = views(kept@);
        let line = &all[i];
        proof {
            let src = views(all@);
            assert(src.take(i + 1) =~= src.take(i as int).push(src[i as int]));
            src.take(i as int).lemma_filter_push(src[i as int], keep);
        }
        if !line.as_str().is_empty() {
            kept.push(line.clone());
            assert(views(kept@) =~= before.push(line@));
        }
        i += 1;
    }
    proof {
        assert(views(all@).take(all.len() as int) =~= views(all@));
    }
    kept
}

} // verus!
