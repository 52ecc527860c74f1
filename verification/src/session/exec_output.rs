//! What the model is shown of a command's output: the beginning and
//! the end, within fixed budgets of bytes and lines.

use crate::lines::{join_chars, joined, line_range, lines_of, split_lines};
use crate::numfmt::{decimal, decimal_chars};
use crate::text::{chars_of, push_all, push_str, string_of, sub_vec};
use vstd::prelude::*;

verus! {

/// What running a command gave.
#[derive(Debug, PartialEq, Eq)]
pub struct ExecToolCallOutput {
    pub exit_code: i32,
    pub stdout: String,
    pub stderr: String,
    pub aggregated_output: String,
    pub duration_ms: u64,
    pub timed_out: bool,
}

pub struct ExecToolCallOutputView {
    pub exit_code: i32,
    pub stdout: Seq<char>,
    pub stderr: Seq<char>,
    pub aggregated_output: Seq<char>,
    pub duration_ms: u64,
    pub timed_out: bool,
}

impl DeepView for ExecToolCallOutput {
    type V = ExecToolCallOutputView;

    open spec fn deep_view(&self) -> ExecToolCallOutputView {
        ExecToolCallOutputView {
            exit_code: self.exit_code,
            stdout: self.stdout@,
            stderr: self.stderr@,
            aggregated_output: self.aggregated_output@,
            duration_ms: self.duration_ms,
            timed_out: self.timed_out,
        }
    }
}

impl Clone for ExecToolCallOutput {
    fn clone(&self) -> (r: Self)
        ensures
            r.deep_view() == self.deep_view(),
    {
        ExecToolCallOutput {
            exit_code: self.exit_code,
            stdout: self.stdout.clone(),
            stderr: self.stderr.clone(),
            aggregated_output: self.aggregated_output.clone(),
            duration_ms: self.duration_ms,
            timed_out: self.timed_out,
        }
    }
}

pub const MODEL_FORMAT_MAX_BYTES: usize = 10240;

pub const MODEL_FORMAT_MAX_LINES: usize = 256;

pub const MODEL_FORMAT_HEAD_LINES: usize = 128;

pub const MODEL_FORMAT_TAIL_LINES: usize = 128;

pub const MODEL_FORMAT_HEAD_BYTES: usize = 5120;

/// The number of bytes of a character in UTF-8.
pub open spec fn char_width(c: char) -> nat {
    let n = c as u32;
    if n < 0x80 {
        1
    } else if n < 0x800 {
        2
    } else if n < 0x10000 {
        3
    } else {
        4
    }
}

/// The number of bytes of a text in UTF-8.
pub open spec fn byte_len(s: Seq<char>) -> nat
    decreases s.len(),
{
    if s.len() == 0 {
        0
    } else {
        byte_len(s.drop_last()) + char_width(s.last())
    }
}

/// The number of leading characters of `s` that fit into `budget`
/// bytes.
pub open spec fn fit_prefix(s: Seq<char>, budget: nat) -> nat
    decreases s.len(),
{
    if s.len() == 0 || char_width(s[0]) > budget {
        0
    } else {
        1 + fit_prefix(s.drop_first(), (budget - char_width(s[0])) as nat)
    }
}

/// The number of trailing characters of `s` that fit into `budget`
/// bytes.
pub open spec fn fit_suffix(s: Seq<char>, budget: nat) -> nat
    decreases s.len(),
{
    if s.len() == 0 || char_width(s.last()) > budget {
        0
    } else {
        1 + fit_suffix(s.drop_last(), (budget - char_width(s.last())) as nat)
    }
}

pub proof fn lemma_byte_len_concat(a: Seq<char>, b: Seq<char>)
    ensures
        byte_len(a + b) == byte_len(a) + byte_len(b),
    decreases b.len(),
{
    if b.len() == 0 {
        assert(a + b =~= a);
    } else {
        lemma_byte_len_concat(a, b.drop_last());
        assert((a + b).drop_last() =~= a + b.drop_last());
    }
}

pub proof fn lemma_fit_prefix(s: Seq<char>, budget: nat)
    ensures
        fit_prefix(s, budget) <= s.len(),
        byte_len(s.take(fit_prefix(s, budget) as int)) <= budget,
    decreases s.len(),
{
    if s.len() == 0 || char_width(s[0]) > budget {
        assert(s.take(0) =~= Seq::<char>::empty());
    } else {
        let rest = s.drop_first();
        let b = (budget - char_width(s[0])) as nat;
        lemma_fit_prefix(rest, b);
        let k = fit_prefix(rest, b) as int;
        assert(s.take(k + 1) =~= seq![s[0]] + rest.take(k));
        lemma_byte_len_concat(seq![s[0]], rest.take(k));
        let one = seq![s[0]];
        assert(one.drop_last() =~= Seq::<char>::empty());
        assert(one.last() == s[0]);
        assert(byte_len(one.drop_last()) == 0);
        assert(byte_len(one) == char_width(s[0]));
    }
}

pub proof fn lemma_fit_suffix(s: Seq<char>, budget: nat)
    ensures
        fit_suffix(s, budget) <= s.len(),
        byte_len(s.skip(s.len() - fit_suffix(s, budget))) <= budget,
    decreases s.len(),
{
    if s.len() == 0 || char_width(s.last()) > budget {
        assert(s.skip(s.len() as int) =~= Seq::<char>::empty());
    } else {
        let rest = s.drop_last();
        let b = (budget - char_width(s.last())) as nat;
        lemma_fit_suffix(rest, b);
        let k = fit_suffix(rest, b) as int;
        let kept = s.skip(s.len() - (k + 1));
        assert(kept.drop_last() =~= rest.skip(rest.len() - k));
        assert(kept.last() == s.last());
    }
}

/// The text that is formatted: the aggregated output, behind a note
/// where the command timed out.
pub open spec fn shown_text(o: ExecToolCallOutputView) -> Seq<char> {
    if o.timed_out {
        "command timed out after "@ + decimal(o.duration_ms as nat) + " milliseconds\n"@
            + o.aggregated_output
    } else {
        o.aggregated_output
    }
}

/// What stands for the omitted lines, without the line feeds around it.
pub open spec fn marker_core(omitted: nat, total: nat) -> Seq<char> {
    "[... omitted "@ + decimal(omitted) + " of "@ + decimal(total) + " lines ...]"@
}

/// What stands for the omitted lines.
pub open spec fn marker_text(omitted: nat, total: nat) -> Seq<char> {
    "\n"@ + marker_core(omitted, total) + "\n\n"@
}

pub open spec fn min_of(a: int, b: int) -> int {
    if a <= b {
        a
    } else {
        b
    }
}

/// The number of lines kept at the head, of `n` lines.
pub open spec fn head_lines(n: int) -> int {
    min_of(MODEL_FORMAT_HEAD_LINES as int, n)
}

/// The number of lines kept at the tail, of `n` lines.
pub open spec fn tail_lines(n: int) -> int {
    min_of(MODEL_FORMAT_TAIL_LINES as int, n - head_lines(n))
}

/// Whether a text is shown as it is: it is within both budgets.
pub open spec fn within_budgets(t: Seq<char>) -> bool {
    byte_len(t) <= MODEL_FORMAT_MAX_BYTES && lines_of(t).len() <= MODEL_FORMAT_MAX_LINES
}

/// The head that is kept of a text that is over a budget.
pub open spec fn kept_head(t: Seq<char>) -> Seq<char> {
    let ls = lines_of(t);
    let head = joined(ls.take(head_lines(ls.len() as int)), "\n"@);
    head.take(fit_prefix(head, MODEL_FORMAT_HEAD_BYTES as nat) as int)
}

/// The marker for a text that is over a budget.
pub open spec fn marker_for(t: Seq<char>) -> Seq<char> {
    let n = lines_of(t).len() as int;
    marker_text((n - head_lines(n) - tail_lines(n)) as nat, n as nat)
}

/// The tail that is kept of a text that is over a budget: what fits
/// into the bytes that head and marker leave.
pub open spec fn kept_tail(t: Seq<char>) -> Seq<char> {
    let ls = lines_of(t);
    let n = ls.len() as int;
    let tail = joined(ls.skip(n - tail_lines(n)), "\n"@);
    let budget = (MODEL_FORMAT_MAX_BYTES - byte_len(kept_head(t)) - byte_len(marker_for(t))) as nat;
    tail.skip(tail.len() - fit_suffix(tail, budget))
}

/// What the model is shown of an output: all of it where it is within
/// the budgets of 10 KiB and 256 lines; otherwise its first 128 lines
/// as far as they fit into 5 KiB, a marker that says how many lines
/// were omitted, and of its last 128 lines what fits into the rest of
/// the 10 KiB. Nothing is cut inside a character.
pub open spec fn formatted_output(o: ExecToolCallOutputView) -> Seq<char> {
    let t = shown_text(o);
    if within_budgets(t) {
        t
    } else {
        kept_head(t) + marker_for(t) + kept_tail(t)
    }
}

/// The marker is short: all of its characters take one byte, and there
/// are at most 80 of them.
pub proof fn lemma_marker_short(omitted: nat, total: nat)
    requires
        omitted <= u64::MAX,
        total <= u64::MAX,
    ensures
        byte_len(marker_text(omitted, total)) <= 80,
{
    crate::numfmt::lemma_decimal_u64(omitted as u64);
    crate::numfmt::lemma_decimal_u64(total as u64);
    reveal_strlit("\n");
    reveal_strlit("\n\n");
    reveal_strlit("[... omitted ");
    reveal_strlit(" of ");
    reveal_strlit(" lines ...]");
    let m = marker_text(omitted, total);
    assert(m.len() <= 80);
    assert forall|i: int| 0 <= i < m.len() implies char_width(#[trigger] m[i]) == 1 by {
        let a = "\n"@;
        let b = "[... omitted "@;
        let c = decimal(omitted);
        let d = " of "@;
        let e = decimal(total);
        let f = " lines ...]"@;
        let g = "\n\n"@;
        assert(m =~= a + b + c + d + e + f + g);
        if i < a.len() {
        } else if i < a.len() + b.len() {
            assert(m[i] == b[i - a.len()]);
        } else if i < a.len() + b.len() + c.len() {
            assert(m[i] == c[i - a.len() - b.len()]);
            assert(crate::text::is_digit(c[i - a.len() - b.len()]));
        } else if i < a.len() + b.len() + c.len() + d.len() {
            assert(m[i] == d[i - a.len() - b.len() - c.len()]);
        } else if i < a.len() + b.len() + c.len() + d.len() + e.len() {
            assert(m[i] == e[i - a.len() - b.len() - c.len() - d.len()]);
            assert(crate::text::is_digit(e[i - a.len() - b.len() - c.len() - d.len()]));
        } else if i < a.len() + b.len() + c.len() + d.len() + e.len() + f.len() {
            assert(m[i] == f[i - a.len() - b.len() - c.len() - d.len() - e.len()]);
        } else {
            assert(m[i] == g[i - a.len() - b.len() - c.len() - d.len() - e.len() - f.len()]);
        }
    }
    lemma_ascii_byte_len(m);
}

/// A text whose characters all take one byte has as many bytes as
/// characters.
pub proof fn lemma_ascii_byte_len(s: Seq<char>)
    requires
        forall|i: int| 0 <= i < s.len() ==> char_width(#[trigger] s[i]) == 1,
    ensures
        byte_len(s) == s.len(),
    decreases s.len(),
{
    if s.len() > 0 {
        let t = s.drop_last();
        assert forall|i: int| 0 <= i < t.len() implies char_width(#[trigger] t[i]) == 1 by {
            assert(t[i] == s[i]);
        }
        lemma_ascii_byte_len(t);
    }
}

/// An output that is over a budget is shown within 10 KiB.
pub proof fn lemma_formatted_within_bytes(o: ExecToolCallOutputView)
    requires
        !within_budgets(shown_text(o)),
        lines_of(shown_text(o)).len() <= u64::MAX,
    ensures
        byte_len(formatted_output(o)) <= MODEL_FORMAT_MAX_BYTES,
{
    let t = shown_text(o);
    let ls = lines_of(t);
    let n = ls.len() as int;
    let head = joined(ls.take(head_lines(n)), "\n"@);
    lemma_fit_prefix(head, MODEL_FORMAT_HEAD_BYTES as nat);
    lemma_marker_short((n - head_lines(n) - tail_lines(n)) as nat, n as nat);
    let tail = joined(ls.skip(n - tail_lines(n)), "\n"@);
    let budget = (MODEL_FORMAT_MAX_BYTES - byte_len(kept_head(t)) - byte_len(marker_for(t))) as nat;
    lemma_fit_suffix(tail, budget);
    lemma_byte_len_concat(kept_head(t), marker_for(t));
    lemma_byte_len_concat(kept_head(t) + marker_for(t), kept_tail(t));
}

/// The number of bytes of `c` in UTF-8.
pub fn utf8_width(c: char) -> (r: usize)
    ensures
        r == char_width(c),
        1 <= r <= 4,
{
    let n: u32 = c as u32;
    if n < 0x80 {
        1
    } else if n < 0x800 {
        2
    } else if n < 0x10000 {
        3
    } else {
        4
    }
}

/// Whether `v` takes more than `limit` bytes.
pub fn exceeds_bytes(v: &Vec<char>, limit: usize) -> (r: bool)
    requires
        limit <= usize::MAX - 4,
    ensures
        r == (byte_len(v@) > limit),
{
    let mut acc: usize = 0;
    let mut i: usize = 0;
    proof {
        assert(v@.take(0) =~= Seq::<char>::empty());
    }
    while i < v.len()
        invariant
            i <= v.len(),
            acc == byte_len(v@.take(i as int)),
            acc <= limit,
            limit <= usize::MAX - 4,
        decreases v.len() - i,
    {
        proof {
            assert(v@.take(i + 1).drop_last() =~= v@.take(i as int));
        }
        acc = acc + utf8_width(v[i]);
        if acc > limit {
            proof {
                lemma_byte_len_grows(v@, i + 1);
            }
            return true;
        }
        i += 1;
    }
    proof {
        assert(v@.take(v.len() as int) =~= v@);
    }
    false
}

pub proof fn lemma_byte_len_grows(s: Seq<char>, k: int)
    requires
        0 <= k <= s.len(),
    ensures
        byte_len(s.take(k)) <= byte_len(s),
    decreases s.len() - k,
{
    if k < s.len() {
        lemma_byte_len_grows(s, k + 1);
        assert(s.take(k + 1).drop_last() =~= s.take(k));
    } else {
        assert(s.take(k) =~= s);
    }
}

/// The longest prefix of `s` that fits into `max_bytes` bytes.
pub fn take_bytes_at_char_boundary(s: &Vec<char>, max_bytes: usize) -> (r: Vec<char>)
    ensures
        r@ == s@.take(fit_prefix(s@, max_bytes as nat) as int),
        byte_len(r@) <= max_bytes,
{
    let mut k: usize = 0;
    let mut left: usize = max_bytes;
    proof {
        assert(s@.skip(0) =~= s@);
    }
    while k < s.len() && utf8_width(s[k]) <= left
        invariant
            k <= s.len(),
            fit_prefix(s@, max_bytes as nat) == k + fit_prefix(s@.skip(k as int), left as nat),
        decreases s.len() - k,
    {
        proof {
            let cur = s@.skip(k as int);
            assert(cur[0] == s@[k as int]);
            assert(cur.drop_first() =~= s@.skip(k + 1));
        }
        left = left - utf8_width(s[k]);
        k += 1;
    }
    proof {
        let cur = s@.skip(k as int);
        if cur.len() > 0 {
            assert(cur[0] == s@[k as int]);
        }
        assert(fit_prefix(cur, left as nat) == 0);
        lemma_fit_prefix(s@, max_bytes as nat);
        assert(s@.subrange(0, k as int) =~= s@.take(k as int));
    }
    sub_vec(s, 0, k)
}

/// The longest suffix of `s` that fits into `max_bytes` bytes.
pub fn take_last_bytes_at_char_boundary(s: &Vec<char>, max_bytes: usize) -> (r: Vec<char>)
    ensures
        r@ == s@.skip(s@.len() - fit_suffix(s@, max_bytes as nat)),
        byte_len(r@) <= max_bytes,
{
    let n = s.len();
    let mut k: usize = 0;
    let mut left: usize = max_bytes;
    proof {
        assert(s@.take(n as int) =~= s@);
    }
    while k < n && utf8_width(s[n - 1 - k]) <= left
        invariant
            k <= n,
            n == s.len(),
            fit_suffix(s@, max_bytes as nat) == k + fit_suffix(s@.take(n - k), left as nat),
        decreases n - k,
    {
        proof {
            let cur = s@.take(n - k);
            assert(cur.last() == s@[n - 1 - k]);
            assert(cur.drop_last() =~= s@.take(n - k - 1));
        }
        left = left - utf8_width(s[n - 1 - k]);
        k += 1;
    }
    proof {
        let cur = s@.take(n - k);
        if cur.len() > 0 {
            assert(cur.last() == s@[n - 1 - k]);
        }
        assert(fit_suffix(cur, left as nat) == 0);
        lemma_fit_suffix(s@, max_bytes as nat);
        assert(s@.subrange(n - k, n as int) =~= s@.skip(n - k));
    }
    sub_vec(s, n - k, n)
}

fn byte_count(v: &Vec<char>) -> (r: usize)
    requires
        byte_len(v@) <= MODEL_FORMAT_MAX_BYTES,
    ensures
        r == byte_len(v@),
{
    let mut acc: usize = 0;
    let mut i: usize = 0;
    proof {
        assert(v@.take(0) =~= Seq::<char>::empty());
    }
    while i < v.len()
        invariant
            i <= v.len(),
            acc == byte_len(v@.take(i as int)),
            byte_len(v@) <= MODEL_FORMAT_MAX_BYTES,
        decreases v.len() - i,
    {
        proof {
            assert(v@.take(i + 1).drop_last() =~= v@.take(i as int));
            lemma_byte_len_grows(v@, i + 1);
        }
        acc = acc + utf8_width(v[i]);
        i += 1;
    }
    proof {
        assert(v@.take(v.len() as int) =~= v@);
    }
    acc
}

fn marker_chars(omitted: usize, total: usize) -> (r: Vec<char>)
    ensures
        r@ == marker_text(omitted as nat, total as nat),
{
    let mut m: Vec<char> = Vec::new();
    push_str(&mut m, "\n");
    push_str(&mut m, "[... omitted ");
    let a = decimal_chars(omitted as u64);
    push_all(&mut m, &a);
    push_str(&mut m, " of ");
    let b = decimal_chars(total as u64);
    push_all(&mut m, &b);
    push_str(&mut m, " lines ...]");
    push_str(&mut m, "\n\n");
    proof {
        assert(m@ =~= marker_text(omitted as nat, total as nat));
    }
    m
}

/// What the model is shown of `exec_output`.
pub fn format_exec_output_str(exec_output: &ExecToolCallOutput) -> (r: String)
    ensures
        r@ == formatted_output(exec_output.deep_view()),
        !within_budgets(shown_text(exec_output.deep_view())) ==> byte_len(r@)
            <= MODEL_FORMAT_MAX_BYTES,
{
    let mut t: Vec<char> = Vec::new();
    if exec_output.timed_out {
        push_str(&mut t, "command timed out after ");
        let d = decimal_chars(exec_output.duration_ms);
        push_all(&mut t, &d);
        push_str(&mut t, " milliseconds\n");
    }
    push_str(&mut t, exec_output.aggregated_output.as_str());
    proof {
        assert(t@ =~= shown_text(exec_output.deep_view()));
    }
    let lines = split_lines(&t);
    let n = lines.len();
    if !exceeds_bytes(&t, MODEL_FORMAT_MAX_BYTES) && n <= MODEL_FORMAT_MAX_LINES {
        return string_of(&t);
    }
    let h = if n < MODEL_FORMAT_HEAD_LINES {
        n
    } else {
        MODEL_FORMAT_HEAD_LINES
    };
    let tl = if n - h < MODEL_FORMAT_TAIL_LINES {
        n - h
    } else {
        MODEL_FORMAT_TAIL_LINES
    };
    let omitted = n - h - tl;
    let sep = chars_of("\n");
    let head_lines_v = line_range(&lines, 0, h);
    let tail_lines_v = line_range(&lines, n - tl, n);
    let head_block = join_chars(&head_lines_v, &sep);
    let tail_block = join_chars(&tail_lines_v, &sep);
    proof {
        let ls = lines_of(t@);
        assert(ls.subrange(0, h as int) =~= ls.take(h as int));
        assert(ls.subrange(n - tl, n as int) =~= ls.skip(n - tl));
    }
    let marker = marker_chars(omitted, n);
    let head_part = take_bytes_at_char_boundary(&head_block, MODEL_FORMAT_HEAD_BYTES);
    proof {
        lemma_marker_short(omitted as nat, n as nat);
    }
    let used = byte_count(&head_part) + byte_count(&marker);
    let remaining = MODEL_FORMAT_MAX_BYTES - used;
    let tail_part = take_last_bytes_at_char_boundary(&tail_block, remaining);
    let mut result: Vec<char> = Vec::new();
    push_all(&mut result, &head_part);
    push_all(&mut result, &marker);
    push_all(&mut result, &tail_part);
    proof {
        assert(result@ =~= head_part@ + marker@ + tail_part@);
        lemma_formatted_within_bytes(exec_output.deep_view());
    }
    string_of(&result)
}

/// The marker begins with a bracket, holds no other opening bracket,
/// and holds no line feed.
pub proof fn lemma_marker_core_chars(omitted: nat, total: nat)
    ensures
        marker_core(omitted, total).len() >= 1,
        marker_core(omitted, total)[0] == '[',
        forall|d: int|
            1 <= d < marker_core(omitted, total).len() ==> #[trigger] marker_core(omitted, total)[d]
                != '[',
        forall|d: int|
            0 <= d < marker_core(omitted, total).len() ==> #[trigger] marker_core(omitted, total)[d]
                != '\n',
{
    reveal_strlit("[... omitted ");
    reveal_strlit(" of ");
    reveal_strlit(" lines ...]");
    let core = marker_core(omitted, total);
    let b = "[... omitted "@;
    let c = decimal(omitted);
    let d = " of "@;
    let e = decimal(total);
    let f = " lines ...]"@;
    lemma_decimal_digits(omitted);
    lemma_decimal_digits(total);
    assert(core =~= b + c + d + e + f);
    assert(core[0] == b[0]);
    assert forall|i: int| 0 <= i < core.len() implies (#[trigger] core[i] != '\n' && (i >= 1
        ==> core[i] != '[')) by {
        if i < b.len() {
            assert(core[i] == b[i]);
        } else if i < b.len() + c.len() {
            assert(core[i] == c[i - b.len()]);
            assert(crate::text::is_digit(c[i - b.len()]));
        } else if i < b.len() + c.len() + d.len() {
            assert(core[i] == d[i - b.len() - c.len()]);
        } else if i < b.len() + c.len() + d.len() + e.len() {
            assert(core[i] == e[i - b.len() - c.len() - d.len()]);
            assert(crate::text::is_digit(e[i - b.len() - c.len() - d.len()]));
        } else {
            assert(core[i] == f[i - b.len() - c.len() - d.len() - e.len()]);
        }
    }
}

/// Every character of a decimal notation is a digit.
pub proof fn lemma_decimal_digits(n: nat)
    ensures
        crate::numfmt::all_digits(decimal(n)),
        decimal(n).len() >= 1,
    decreases n,
{
    if n < 10 {
        assert(crate::text::is_digit(crate::numfmt::digit_char(n as int)));
    } else {
        lemma_decimal_digits(n / 10);
        let prev = decimal(n / 10);
        assert(crate::text::is_digit(crate::numfmt::digit_char((n % 10) as int)));
        assert forall|i: int| 0 <= i < decimal(n).len() implies crate::text::is_digit(
            #[trigger] decimal(n)[i],
        ) by {
            if i < prev.len() {
                assert(decimal(n)[i] == prev[i]);
            }
        }
    }
}

/// Where `core` stands in `head + "\n" + core + "\n\n" + tail`: behind
/// the head's line feed and nowhere else, provided that it stands
/// neither in the head nor in the tail.
pub proof fn lemma_marker_stands_once(
    head: Seq<char>,
    tail: Seq<char>,
    omitted: nat,
    total: nat,
    i: int,
)
    requires
        forall|j: int| !(#[trigger] crate::search::occurs_at(head, marker_core(omitted, total), j)),
        forall|j: int| !(#[trigger] crate::search::occurs_at(tail, marker_core(omitted, total), j)),
    ensures
        crate::search::occurs_at(
            head + marker_text(omitted, total) + tail,
            marker_core(omitted, total),
            i,
        ) <==> i == head.len() + 1,
{
    reveal_strlit("\n");
    reveal_strlit("\n\n");
    lemma_marker_core_chars(omitted, total);
    let core = marker_core(omitted, total);
    let m = marker_text(omitted, total);
    let r = head + m + tail;
    let hl = head.len() as int;
    let cl = core.len() as int;
    assert(m.len() == cl + 3);
    assert(m[0] == '\n');
    assert(m[cl + 1] == '\n');
    assert(m[cl + 2] == '\n');
    assert forall|d: int| 0 <= d < cl implies #[trigger] m[d + 1] == core[d] by {}
    assert(r.subrange(hl + 1, hl + 1 + cl) =~= core) by {
        assert forall|d: int| 0 <= d < cl implies r.subrange(hl + 1, hl + 1 + cl)[d] == core[d] by {
            assert(r[hl + 1 + d] == m[d + 1]);
        }
    }
    if crate::search::occurs_at(r, core, i) && i != hl + 1 {
        let w = r.subrange(i, i + cl);
        assert(w == core);
        if i + cl <= hl {
            assert(head.subrange(i, i + cl) =~= w);
            assert(crate::search::occurs_at(head, core, i));
        } else if i < hl {
            assert(w[hl - i] == r[hl]);
            assert(r[hl] == m[0]);
            assert(core[hl - i] == '\n');
        } else if i == hl {
            assert(w[0] == r[hl]);
            assert(r[hl] == m[0]);
        } else if i <= hl + cl {
            let d = i - hl - 1;
            assert(w[0] == r[i]);
            assert(r[i] == m[d + 1]);
            assert(m[d + 1] == core[d]);
        } else if i < hl + cl + 3 {
            assert(w[0] == r[i]);
            assert(r[i] == m[i - hl]);
        } else {
            let k = i - hl - cl - 3;
            assert(tail.subrange(k, k + cl) =~= w) by {
                assert forall|d: int| 0 <= d < cl implies tail.subrange(k, k + cl)[d] == w[d] by {
                    assert(w[d] == r[i + d]);
                    assert(r[i + d] == tail[k + d]);
                }
            }
            assert(crate::search::occurs_at(tail, core, k));
        }
    }
}

/// An output that is over a budget is shown with exactly one marker:
/// the marker stands behind what is kept of the head and nowhere else.
/// This holds of every output but one whose kept head or kept tail
/// holds the text of the marker itself.
pub proof fn lemma_formatted_has_one_marker(o: ExecToolCallOutputView, i: int)
    requires
        !within_budgets(shown_text(o)),
        forall|j: int|
            !(#[trigger] crate::search::occurs_at(
                kept_head(shown_text(o)),
                marker_of(shown_text(o)),
                j,
            )),
        forall|j: int|
            !(#[trigger] crate::search::occurs_at(
                kept_tail(shown_text(o)),
                marker_of(shown_text(o)),
                j,
            )),
    ensures
        crate::search::occurs_at(formatted_output(o), marker_of(shown_text(o)), i) <==> i
            == kept_head(shown_text(o)).len() + 1,
{
    let t = shown_text(o);
    let n = lines_of(t).len() as int;
    let omitted = (n - head_lines(n) - tail_lines(n)) as nat;
    let core = marker_core(omitted, n as nat);
    assert(core == marker_of(t));
    assert forall|j: int| !(#[trigger] crate::search::occurs_at(kept_head(t), core, j)) by {}
    assert forall|j: int| !(#[trigger] crate::search::occurs_at(kept_tail(t), core, j)) by {}
    lemma_marker_stands_once(kept_head(t), kept_tail(t), omitted, n as nat, i);
    assert(marker_for(t) == marker_text(omitted, n as nat));
}

/// The marker of a text that is over a budget, without the line feeds
/// around it.
pub open spec fn marker_of(t: Seq<char>) -> Seq<char> {
    let n = lines_of(t).len() as int;
    marker_core((n - head_lines(n) - tail_lines(n)) as nat, n as nat)
}

/// The words with which every marker begins.
pub open spec fn marker_opening() -> Seq<char> {
    "[... omitted "@
}

/// What stands in a part of a text stands in the text.
pub proof fn lemma_part_occurrence(s: Seq<char>, a: int, b: int, p: Seq<char>, j: int)
    requires
        0 <= a <= b <= s.len(),
        crate::search::occurs_at(s.subrange(a, b), p, j),
    ensures
        crate::search::occurs_at(s, p, a + j),
{
    assert(s.subrange(a + j, a + j + p.len()) =~= s.subrange(a, b).subrange(j, j + p.len()));
}

/// Every line of a text is a part of the text: the bounds of the
/// part are the result.
pub proof fn lemma_line_is_part(t: Seq<char>, k: int) -> (r: (int, int))
    requires
        0 <= k < lines_of(t).len(),
    ensures
        0 <= r.0 <= r.1 <= t.len(),
        lines_of(t)[k] == t.subrange(r.0, r.1),
    decreases t.len(),
{
    crate::lines::lemma_until_newline_bound(t);
    let n = crate::lines::until_newline(t) as int;
    if n >= t.len() {
        assert(t.subrange(0, t.len() as int) =~= t);
        (0, t.len() as int)
    } else if k == 0 {
        let line = crate::lines::strip_cr(t.take(n));
        assert(line =~= t.subrange(0, line.len() as int));
        (0, line.len() as int)
    } else {
        let rest = t.skip(n + 1);
        let inner = lemma_line_is_part(rest, k - 1);
        assert(lines_of(t)[k] == lines_of(rest)[k - 1]);
        assert(rest.subrange(inner.0, inner.1) =~= t.subrange(inner.0 + n + 1, inner.1 + n + 1));
        (inner.0 + n + 1, inner.1 + n + 1)
    }
}

/// A text without a line feed that stands in lines joined by line
/// feeds stands in one of the lines: the line and the place in it are
/// the result.
pub proof fn lemma_occurrence_in_a_line(parts: Seq<Seq<char>>, p: Seq<char>, j: int) -> (r: (
    int,
    int,
))
    requires
        p.len() > 0,
        forall|d: int| 0 <= d < p.len() ==> #[trigger] p[d] != '\n',
        crate::search::occurs_at(joined(parts, "\n"@), p, j),
    ensures
        0 <= r.0 < parts.len(),
        crate::search::occurs_at(parts[r.0], p, r.1),
    decreases parts.len(),
{
    reveal_strlit("\n");
    let whole = joined(parts, "\n"@);
    if parts.len() == 0 {
        (0, 0)
    } else if parts.len() == 1 {
        (0, j)
    } else {
        let front = joined(parts.drop_last(), "\n"@);
        let a = front.len() as int;
        assert(whole =~= front + "\n"@ + parts.last());
        if j + p.len() <= a {
            assert(front.subrange(j, j + p.len()) =~= whole.subrange(j, j + p.len()));
            let inner = lemma_occurrence_in_a_line(parts.drop_last(), p, j);
            assert(parts.drop_last()[inner.0] == parts[inner.0]);
            inner
        } else if j > a {
            assert(parts.last().subrange(j - a - 1, j - a - 1 + p.len()) =~= whole.subrange(
                j,
                j + p.len(),
            ));
            (parts.len() - 1, j - a - 1)
        } else {
            assert(whole.subrange(j, j + p.len())[a - j] == whole[a]);
            assert(whole[a] == '\n');
            assert(p[a - j] == '\n');
            (0, 0)
        }
    }
}

/// Where the opening of the marker does not stand in a text, it does
/// not stand in lines of the text that are joined by line feeds
/// either.
pub proof fn lemma_no_opening_in_lines(t: Seq<char>, from: int, to: int, j: int)
    requires
        !crate::search::contains_text(t, marker_opening()),
        0 <= from <= to <= lines_of(t).len(),
    ensures
        !crate::search::occurs_at(
            joined(lines_of(t).subrange(from, to), "\n"@),
            marker_opening(),
            j,
        ),
{
    reveal_strlit("[... omitted ");
    let parts = lines_of(t).subrange(from, to);
    let p = marker_opening();
    if crate::search::occurs_at(joined(parts, "\n"@), p, j) {
        let place = lemma_occurrence_in_a_line(parts, p, j);
        let bounds = lemma_line_is_part(t, from + place.0);
        assert(parts[place.0] == lines_of(t)[from + place.0]);
        lemma_part_occurrence(t, bounds.0, bounds.1, p, place.1);
        assert(crate::search::occurs_at(t, p, bounds.0 + place.1));
    }
}

/// A marker stands only where its opening stands.
pub proof fn lemma_marker_has_opening(s: Seq<char>, omitted: nat, total: nat, j: int)
    requires
        crate::search::occurs_at(s, marker_core(omitted, total), j),
    ensures
        crate::search::occurs_at(s, marker_opening(), j),
{
    let core = marker_core(omitted, total);
    let p = marker_opening();
    assert(core.subrange(0, p.len() as int) =~= p);
    assert(s.subrange(j, j + p.len()) =~= s.subrange(j, j + core.len()).subrange(
        0,
        p.len() as int,
    ));
}

/// An output that is over a budget, and in whose text the opening of
/// the marker does not stand, is shown with exactly one marker: the
/// marker stands behind what is kept of the head and nowhere else.
pub proof fn lemma_one_marker_where_text_has_none(o: ExecToolCallOutputView, i: int)
    requires
        !within_budgets(shown_text(o)),
        !crate::search::contains_text(shown_text(o), marker_opening()),
    ensures
        crate::search::occurs_at(formatted_output(o), marker_of(shown_text(o)), i) <==> i
            == kept_head(shown_text(o)).len() + 1,
{
    let t = shown_text(o);
    let ls = lines_of(t);
    let n = ls.len() as int;
    let omitted = (n - head_lines(n) - tail_lines(n)) as nat;
    let core = marker_core(omitted, n as nat);
    let head = joined(ls.take(head_lines(n)), "\n"@);
    let tail = joined(ls.skip(n - tail_lines(n)), "\n"@);
    lemma_fit_prefix(head, MODEL_FORMAT_HEAD_BYTES as nat);
    let budget = (MODEL_FORMAT_MAX_BYTES - byte_len(kept_head(t)) - byte_len(marker_for(t))) as nat;
    lemma_fit_suffix(tail, budget);
    assert(ls.take(head_lines(n)) =~= ls.subrange(0, head_lines(n)));
    assert(ls.skip(n - tail_lines(n)) =~= ls.subrange(n - tail_lines(n), n));
    assert forall|j: int| !(#[trigger] crate::search::occurs_at(kept_head(t), marker_of(t), j)) by {
        if crate::search::occurs_at(kept_head(t), core, j) {
            lemma_marker_has_opening(kept_head(t), omitted, n as nat, j);
            let cut = fit_prefix(head, MODEL_FORMAT_HEAD_BYTES as nat) as int;
            assert(kept_head(t) =~= head.subrange(0, cut));
            lemma_part_occurrence(head, 0, cut, marker_opening(), j);
            lemma_no_opening_in_lines(t, 0, head_lines(n), j);
        }
    }
    assert forall|j: int| !(#[trigger] crate::search::occurs_at(kept_tail(t), marker_of(t), j)) by {
        if crate::search::occurs_at(kept_tail(t), core, j) {
            lemma_marker_has_opening(kept_tail(t), omitted, n as nat, j);
            let cut = tail.len() - fit_suffix(tail, budget);
            assert(kept_tail(t) =~= tail.subrange(cut, tail.len() as int));
            lemma_part_occurrence(tail, cut, tail.len() as int, marker_opening(), j);
            lemma_no_opening_in_lines(t, n - tail_lines(n), n, cut + j);
        }
    }
    lemma_formatted_has_one_marker(o, i);
}

} // verus!
