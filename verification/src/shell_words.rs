//! Splitting a line into words the way a POSIX shell does.

use shlex::Shlex;
use vstd::prelude::*;

verus! {

/// The words that `shlex::Shlex` yields for `line`: the line split at
/// unquoted blanks, tabs and line feeds, with quotes and backslash
/// escapes resolved as a POSIX shell resolves them. A `#` where a word
/// would begin opens a comment, which runs to the end of its line and
/// yields no word. A line that ends inside a quotation or after a lone
/// backslash yields the words before the unfinished one.
pub uninterp spec fn shell_words(line: Seq<char>) -> Seq<Seq<char>>;

/// `shlex::Shlex::new(line)`, collected. The words depend on the line
/// alone.
#[verifier::external_body]
pub(crate) fn split_words(line: &str) -> (r: Vec<String>)
    ensures
        r.deep_view() == shell_words(line@),
{
    Shlex::new(line).collect()
}

} // verus!
