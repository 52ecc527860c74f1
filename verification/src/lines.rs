//! Joining texts and splitting a text into lines.

use crate::text::{chars_of, push_all, string_of, sub_vec};
use vstd::prelude::*;

verus! {

/// The texts of `parts`, with `sep` between neighbours.
pub open spec fn joined(parts: Seq<Seq<char>>, sep: Seq<char>) -> Seq<char>
    decreases parts.len(),
{
    if parts.len() == 0 {
        Seq::empty()
    } else if parts.len() == 1 {
        parts[0]
    } else {
        joined(parts.drop_last(), sep) + sep + parts.last()
    }
}

/// The number of characters before the first line feed of `s`.
pub open spec fn until_newline(s: Seq<char>) -> nat
    decreases s.len(),
{
    if s.len() == 0 || s[0] == '\n' {
        0
    } else {
        1 + until_newline(s.drop_first())
    }
}

/// `line` without one trailing carriage return.
pub open spec fn strip_cr(line: Seq<char>) -> Seq<char> {
    if line.len() > 0 && line.last() == '\r' {
        line.drop_last()
    } else {
        line
    }
}

/// The lines of `s`. A line ends at a line feed, and a carriage return
/// before that line feed belongs to the line ending. What follows the
/// last line feed, if anything, is a line of its own.
pub open spec fn lines_of(s: Seq<char>) -> Seq<Seq<char>>
    decreases s.len(),
{
    if s.len() == 0 {
        Seq::empty()
    } else {
        let k = until_newline(s) as int;
        if k >= s.len() {
            seq![s]
        } else {
            seq![strip_cr(s.take(k))] + lines_of(s.skip(k + 1))
        }
    }
}

pub proof fn lemma_until_newline_bound(s: Seq<char>)
    ensures
        until_newline(s) <= s.len(),
        until_newline(s) < s.len() ==> s[until_newline(s) as int] == '\n',
        forall|i: int| 0 <= i < until_newline(s) ==> #[trigger] s[i] != '\n',
    decreases s.len(),
{
    if s.len() == 0 || s[0] == '\n' {
    } else {
        let t = s.drop_first();
        lemma_until_newline_bound(t);
        let k = until_newline(t) as int;
        if k < t.len() {
            assert(t[k] == s[k + 1]);
        }
        assert forall|i: int| 0 <= i < until_newline(s) implies #[trigger] s[i] != '\n' by {
            if i > 0 {
                assert(t[i - 1] == s[i]);
            }
        }
    }
}

/// The views of the elements of `v`.
pub open spec fn texts(v: Seq<Vec<char>>) -> Seq<Seq<char>> {
    Seq::new(v.len(), |i: int| v[i]@)
}

/// The views of the elements of `v`.
pub open spec fn string_texts(v: Seq<String>) -> Seq<Seq<char>> {
    Seq::new(v.len(), |i: int| v[i]@)
}

/// Joins character vectors with a separator.
pub fn join_chars(parts: &Vec<Vec<char>>, sep: &Vec<char>) -> (out: Vec<char>)
    ensures
        out@ == joined(texts(parts@), sep@),
{
    let mut out: Vec<char> = Vec::new();
    let mut i: usize = 0;
    while i < parts.len()
        invariant
            i <= parts.len(),
            out@ == joined(texts(parts@).take(i as int), sep@),
        decreases parts.len() - i,
    {
        proof {
            let all = texts(parts@);
            assert(all.take(i + 1).drop_last() =~= all.take(i as int));
            assert(all.take(i + 1).last() == parts@[i as int]@);
        }
        if i > 0 {
            push_all(&mut out, sep);
        }
        push_all(&mut out, &parts[i]);
        proof {
            if i == 0 {
                assert(out@ =~= parts@[0]@);
            }
        }
        i += 1;
    }
    proof {
        assert(texts(parts@).take(parts.len() as int) =~= texts(parts@));
    }
    out
}

/// Joins strings with a separator.
pub fn join(parts: &Vec<String>, sep: &str) -> (out: String)
    ensures
        out@ == joined(string_texts(parts@), sep@),
{
    let sepv = chars_of(sep);
    let mut out: Vec<char> = Vec::new();
    let mut i: usize = 0;
    while i < parts.len()
        invariant
            i <= parts.len(),
            sepv@ == sep@,
            out@ == joined(string_texts(parts@).take(i as int), sep@),
        decreases parts.len() - i,
    {
        proof {
            let all = string_texts(parts@);
            assert(all.take(i + 1).drop_last() =~= all.take(i as int));
            assert(all.take(i + 1).last() == parts@[i as int]@);
        }
        if i > 0 {
            push_all(&mut out, &sepv);
        }
        let piece = chars_of(parts[i].as_str());
        push_all(&mut out, &piece);
        proof {
            if i == 0 {
                assert(out@ =~= parts@[0]@);
            }
        }
        i += 1;
    }
    proof {
        assert(string_texts(parts@).take(parts.len() as int) =~= string_texts(parts@));
    }
    string_of(&out)
}

/// Splits `v` into its lines.
pub fn split_lines(v: &Vec<char>) -> (out: Vec<Vec<char>>)
    ensures
        texts(out@) == lines_of(v@),
{
    let n = v.len();
    let mut out: Vec<Vec<char>> = Vec::new();
    let mut pos: usize = 0;
    proof {
        assert(v@.skip(0) =~= v@);
        assert(texts(out@) =~= Seq::<Seq<char>>::empty());
    }
    while pos < n
        invariant
            pos <= n,
            n == v.len(),
            lines_of(v@) == texts(out@) + lines_of(v@.skip(pos as int)),
        decreases n - pos,
    {
        let ghost rest = v@.skip(pos as int);
        let mut k: usize = pos;
        proof {
            assert(v@.skip(pos as int).skip(0) =~= rest);
        }
        while k < n && v[k] != '\n'
            invariant
                pos <= k <= n,
                n == v.len(),
                rest == v@.skip(pos as int),
                until_newline(rest) == (k - pos) + until_newline(v@.skip(k as int)),
            decreases n - k,
        {
            proof {
                assert(v@.skip(k as int).drop_first() =~= v@.skip(k + 1));
            }
            k += 1;
        }
        proof {
            assert(until_newline(v@.skip(k as int)) == 0);
            assert(until_newline(rest) == k - pos);
            assert(rest.len() == n - pos);
        }
        let ghost before = texts(out@);
        if k == n {
            let line = sub_vec(v, pos, n);
            proof {
                assert(v@.subrange(pos as int, n as int) =~= rest);
                assert(lines_of(rest) =~= seq![rest]);
                assert(lines_of(v@.skip(n as int)) =~= Seq::<Seq<char>>::empty());
            }
            out.push(line);
            proof {
                assert(texts(out@) =~= before.push(rest));
                assert(before + seq![rest] =~= before.push(rest));
                assert(texts(out@) + Seq::<Seq<char>>::empty() =~= texts(out@));
            }
            pos = n;
        } else {
            let end = if k > pos && v[k - 1] == '\r' {
                k - 1
            } else {
                k
            };
            let line = sub_vec(v, pos, end);
            proof {
                let raw = rest.take(k - pos);
                assert(raw =~= v@.subrange(pos as int, k as int));
                if k > pos {
                    assert(raw.last() == v@[k - 1]);
                }
                assert(strip_cr(raw) =~= v@.subrange(pos as int, end as int));
                assert(rest.skip(k - pos + 1) =~= v@.skip(k + 1));
                assert(lines_of(rest) == seq![strip_cr(raw)] + lines_of(v@.skip(k + 1)));
            }
            out.push(line);
            proof {
                let l = v@.subrange(pos as int, end as int);
                assert(texts(out@) =~= before.push(l));
                assert(before + (seq![l] + lines_of(v@.skip(k + 1))) =~= before.push(l)
                    + lines_of(v@.skip(k + 1)));
            }
            pos = k + 1;
        }
    }
    proof {
        assert(lines_of(v@.skip(n as int)) =~= Seq::<Seq<char>>::empty());
        assert(texts(out@) + Seq::<Seq<char>>::empty() =~= texts(out@));
    }
    out
}

/// A copy of the lines `from..to`.
pub fn line_range(lines: &Vec<Vec<char>>, from: usize, to: usize) -> (r: Vec<Vec<char>>)
    requires
        from <= to <= lines.len(),
    ensures
        texts(r@) == texts(lines@).subrange(from as int, to as int),
{
    let mut out: Vec<Vec<char>> = Vec::new();
    let mut i: usize = from;
    while i < to
        invariant
            from <= i <= to <= lines.len(),
            out@.len() == i - from,
            forall|j: int| 0 <= j < i - from ==> (#[trigger] out@[j])@ == lines@[from + j]@,
        decreases to - i,
    {
        out.push(sub_vec(&lines[i], 0, lines[i].len()));
        proof {
            assert(lines@[i as int]@.subrange(0, lines@[i as int]@.len() as int)
                =~= lines@[i as int]@);
        }
        i += 1;
    }
    proof {
        assert(texts(out@) =~= texts(lines@).subrange(from as int, to as int));
    }
    out
}

} // verus!
