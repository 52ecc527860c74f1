//! Reading a line as the invocation of a slash command.

use crate::parse_support::{skip_slashes, without_slashes};
use crate::shell_words::{shell_words, split_words};
use crate::text::{chars_of, skip_spaces, string_of, sub_vec, trim, trim_bounds, trimmed};
use vstd::prelude::*;

verus! {

/// What follows the slashes that a command line begins with, without
/// leading white space.
pub open spec fn command_text(input: Seq<char>) -> Seq<char> {
    skip_spaces(without_slashes(trimmed(input)))
}

/// The command and its arguments, where the line is the invocation of a
/// slash command: trimmed, it begins with a slash, and what follows the
/// slashes splits into at least one word.
pub open spec fn command_line_of(input: Seq<char>) -> Option<(Seq<char>, Seq<Seq<char>>)> {
    let t = trimmed(input);
    if t.len() == 0 || t[0] != '/' {
        None
    } else if command_text(input).len() == 0 {
        None
    } else {
        let words = shell_words(command_text(input));
        if words.len() == 0 {
            None
        } else {
            Some((words[0], words.skip(1)))
        }
    }
}

/// Reads a line as the invocation of a slash command.
pub fn parse_command_line(input: &str) -> (r: Option<(String, Vec<String>)>)
    ensures
        r.deep_view() == command_line_of(input@),
{
    let t = trim(input);
    let v = chars_of(t.as_str());
    if v.len() == 0 || v[0] != '/' {
        return None;
    }
    let from = skip_slashes(&v);
    let rest = sub_vec(&v, from, v.len());
    proof {
        assert(v@.subrange(from as int, v.len() as int) =~= v@.skip(from as int));
    }
    let (a, _b) = trim_bounds(&rest);
    let text = sub_vec(&rest, a, rest.len());
    proof {
        assert(rest@.subrange(a as int, rest.len() as int) =~= rest@.skip(a as int));
    }
    if text.len() == 0 {
        return None;
    }
    let line = string_of(&text);
    let mut tokens = split_words(line.as_str());
    if tokens.len() == 0 {
        return None;
    }
    let ghost words = tokens.deep_view();
    let command = tokens.remove(0);
    proof {
        assert(tokens.deep_view() =~= words.skip(1));
    }
    Some((command, tokens))
}

} // verus!
