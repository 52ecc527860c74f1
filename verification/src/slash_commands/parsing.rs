//! Reads a command file: optional front matter between `---` lines,
//! then the template. The front matter itself is decoded elsewhere and
//! handed in.

use crate::lines::{join_chars, joined, lines_of, split_lines, texts, until_newline};
use crate::search::{matches_at, starts_with};
use crate::slash_commands::errors::{SlashCommandError, SlashCommandErrorView};
use crate::slash_commands::metadata::{
    no_metadata, FrontmatterMetadata, FrontmatterMetadataView,
};
use crate::subagents::parser::without_bom;
use crate::text::{
    blank, char_is_space, chars_of, is_blank, is_space, push_str, same_chars, string_of, sub_vec,
    trim, trim_bounds, trimmed,
};
use vstd::prelude::*;

verus! {

#[derive(Debug)]
pub struct ParsedTemplate {
    pub metadata: FrontmatterMetadata,
    pub body: String,
}

impl Clone for ParsedTemplate {
    fn clone(&self) -> (r: Self)
        ensures
            r.metadata.deep_view() == self.metadata.deep_view(),
            r.body@ == self.body@,
    {
        ParsedTemplate { metadata: self.metadata.clone(), body: self.body.clone() }
    }
}

/// The front matter of a command file, decoded.
#[derive(Debug)]
pub struct RawFrontmatter {
    pub description: Option<String>,
    pub argument_hint: Option<String>,
    pub model: Option<String>,
    pub allowed_tools: Option<Vec<String>>,
}

impl Default for RawFrontmatter {
    fn default() -> (r: Self)
        ensures
            r.description is None,
            r.argument_hint is None,
            r.model is None,
            r.allowed_tools is None,
    {
        RawFrontmatter { description: None, argument_hint: None, model: None, allowed_tools: None }
    }
}

/// The length of the first line of `s`, its line feed included.
pub open spec fn first_line_len(s: Seq<char>) -> int {
    let k = until_newline(s) as int;
    if k < s.len() {
        k + 1
    } else {
        k
    }
}

/// `s` without the blank lines that it begins with.
pub open spec fn skip_blank_lines(s: Seq<char>) -> Seq<char>
    decreases s.len(),
{
    if s.len() == 0 {
        s
    } else {
        proof {
            crate::lines::lemma_until_newline_bound(s);
        }
        let n = first_line_len(s);
        if is_blank(s.take(n)) {
            skip_blank_lines(s.skip(n))
        } else {
            s
        }
    }
}

pub open spec fn delimiter() -> Seq<char> {
    "---"@
}

/// The position of the first line from `from` on that, trimmed, is the
/// delimiter.
pub open spec fn closing_line(lines: Seq<Seq<char>>, from: int) -> Option<int>
    decreases lines.len() - from,
{
    if from < 0 || from >= lines.len() {
        None
    } else if trimmed(lines[from]) == delimiter() {
        Some(from)
    } else {
        closing_line(lines, from + 1)
    }
}

/// The parts of a command file: nothing where it has no front matter;
/// else the front matter and the body, each as its lines joined by line
/// feeds. A file whose front matter is never closed is refused.
pub open spec fn template_parts(raw: Seq<char>) -> Result<
    Option<(Seq<char>, Seq<char>)>,
    SlashCommandErrorView,
> {
    let check = skip_blank_lines(without_bom(raw));
    if check.len() == 0 || !starts_with(check, delimiter()) {
        Ok(None)
    } else {
        let lines = lines_of(check);
        match closing_line(lines, 1) {
            None => Err(
                SlashCommandErrorView::InvalidTemplate("missing closing frontmatter delimiter"@),
            ),
            Some(j) => Ok(
                Some((joined(lines.subrange(1, j), "\n"@), joined(lines.skip(j + 1), "\n"@))),
            ),
        }
    }
}

pub open spec fn trimmed_opt(o: Option<Seq<char>>) -> Option<Seq<char>> {
    match o {
        Some(s) => Some(trimmed(s)),
        None => None,
    }
}

/// The tools trimmed, without the blank ones.
pub open spec fn tidy_tools(tools: Seq<Seq<char>>, n: int) -> Seq<Seq<char>>
    decreases n,
{
    if n <= 0 {
        Seq::empty()
    } else if is_blank(tools[n - 1]) {
        tidy_tools(tools, n - 1)
    } else {
        tidy_tools(tools, n - 1).push(trimmed(tools[n - 1]))
    }
}

/// The metadata that decoded front matter gives: every text trimmed.
pub open spec fn metadata_of(raw: RawFrontmatter) -> FrontmatterMetadataView {
    FrontmatterMetadataView {
        description: trimmed_opt(raw.description.deep_view()),
        argument_hint: trimmed_opt(raw.argument_hint.deep_view()),
        model: trimmed_opt(raw.model.deep_view()),
        allowed_tools: match raw.allowed_tools {
            Some(t) => Some(tidy_tools(t.deep_view(), t.deep_view().len() as int)),
            None => None,
        },
    }
}

/// What reading a command file gives, given the decoded front matter:
/// a file without front matter is all template; blank front matter
/// gives no metadata; front matter that the decoder refused is refused.
pub open spec fn template_outcome(raw: Seq<char>, decoded: Result<RawFrontmatter, String>) -> Result<
    (FrontmatterMetadataView, Seq<char>),
    SlashCommandErrorView,
> {
    match template_parts(raw) {
        Err(e) => Err(e),
        Ok(None) => Ok((no_metadata(), raw)),
        Ok(Some(parts)) => if is_blank(parts.0) {
            Ok((no_metadata(), parts.1))
        } else {
            match decoded {
                Err(m) => Err(
                    SlashCommandErrorView::InvalidTemplate("failed to parse frontmatter: "@ + m@),
                ),
                Ok(front) => Ok((metadata_of(front), parts.1)),
            }
        },
    }
}

fn blank_range(v: &Vec<char>, from: usize, to: usize) -> (r: bool)
    requires
        from <= to <= v.len(),
    ensures
        r == is_blank(v@.subrange(from as int, to as int)),
{
    let mut i: usize = from;
    while i < to
        invariant
            from <= i <= to <= v.len(),
            forall|j: int| from <= j < i ==> is_space(#[trigger] v@[j]),
        decreases to - i,
    {
        if !char_is_space(v[i]) {
            proof {
                assert(v@.subrange(from as int, to as int)[i - from] == v@[i as int]);
            }
            return false;
        }
        i += 1;
    }
    proof {
        assert forall|j: int| 0 <= j < to - from implies is_space(
            #[trigger] v@.subrange(from as int, to as int)[j],
        ) by {
            assert(v@.subrange(from as int, to as int)[j] == v@[from + j]);
        }
    }
    true
}

fn blank_lines_end(v: &Vec<char>) -> (k: usize)
    ensures
        k <= v.len(),
        v@.skip(k as int) == skip_blank_lines(v@),
{
    let n = v.len();
    let mut pos: usize = 0;
    proof {
        assert(v@.skip(0) =~= v@);
    }
    while pos < n
        invariant
            pos <= n,
            n == v.len(),
            skip_blank_lines(v@) == skip_blank_lines(v@.skip(pos as int)),
        decreases n - pos,
    {
        let ghost cur = v@.skip(pos as int);
        let mut e: usize = pos;
        proof {
            assert(cur.skip(0) =~= cur);
        }
        while e < n && v[e] != '\n'
            invariant
                pos <= e <= n,
                n == v.len(),
                cur == v@.skip(pos as int),
                until_newline(cur) == (e - pos) + until_newline(v@.skip(e as int)),
            decreases n - e,
        {
            proof {
                assert(v@.skip(e as int).drop_first() =~= v@.skip(e + 1));
            }
            e += 1;
        }
        proof {
            let s = v@.skip(e as int);
            if s.len() > 0 {
                assert(s[0] == v@[e as int]);
            }
            assert(until_newline(cur) == e - pos);
            assert(cur.len() == n - pos);
        }
        let end = if e < n {
            e + 1
        } else {
            e
        };
        proof {
            assert(first_line_len(cur) == end - pos);
            assert(cur.take(end - pos) =~= v@.subrange(pos as int, end as int));
            assert(cur.skip(end - pos) =~= v@.skip(end as int));
        }
        if !blank_range(v, pos, end) {
            return pos;
        }
        pos = end;
    }
    pos
}

/// `s` without the blank lines that it begins with.
pub fn strip_leading_blank_lines(s: &str) -> (r: String)
    ensures
        r@ == skip_blank_lines(s@),
{
    let v = chars_of(s);
    let k = blank_lines_end(&v);
    let w = sub_vec(&v, k, v.len());
    proof {
        assert(v@.subrange(k as int, v.len() as int) =~= v@.skip(k as int));
    }
    string_of(&w)
}

fn find_closing(lines: &Vec<Vec<char>>, from: usize) -> (r: Option<usize>)
    ensures
        match r {
            Some(j) => closing_line(texts(lines@), from as int) == Some(j as int) && from <= j
                < lines.len(),
            None => closing_line(texts(lines@), from as int) is None,
        },
{
    let marker = chars_of("---");
    let mut j: usize = from;
    while j < lines.len()
        invariant
            from <= j,
            marker@ == delimiter(),
            closing_line(texts(lines@), from as int) == closing_line(texts(lines@), j as int),
        decreases lines.len() - j,
    {
        let (a, b) = trim_bounds(&lines[j]);
        let t = sub_vec(&lines[j], a, b);
        proof {
            assert(texts(lines@)[j as int] == lines@[j as int]@);
        }
        if same_chars(&t, &marker) {
            return Some(j);
        }
        j += 1;
    }
    None
}

pub open spec fn parts_view(r: Result<Option<(String, String)>, SlashCommandError>) -> Result<
    Option<(Seq<char>, Seq<char>)>,
    SlashCommandErrorView,
> {
    match r {
        Ok(Some(p)) => Ok(Some((p.0@, p.1@))),
        Ok(None) => Ok(None),
        Err(e) => Err(e.deep_view()),
    }
}

/// Splits a command file into front matter and body.
pub fn split_template(raw: &str) -> (r: Result<Option<(String, String)>, SlashCommandError>)
    ensures
        parts_view(r) == template_parts(raw@),
{
    let all = chars_of(raw);
    let from = if all.len() > 0 && all[0] == '\u{feff}' {
        1
    } else {
        0
    };
    let v = sub_vec(&all, from, all.len());
    proof {
        assert(all@.subrange(from as int, all.len() as int) =~= all@.skip(from as int));
        assert(all@.skip(0) =~= all@);
        assert(v@ == without_bom(raw@));
    }
    let k = blank_lines_end(&v);
    let check = sub_vec(&v, k, v.len());
    proof {
        assert(v@.subrange(k as int, v.len() as int) =~= v@.skip(k as int));
    }
    let marker = chars_of("---");
    if check.len() == 0 || !matches_at(&check, &marker, 0) {
        return Ok(None);
    }
    let lines = split_lines(&check);
    match find_closing(&lines, 1) {
        None => Err(
            SlashCommandError::InvalidTemplate(
                String::from_str("missing closing frontmatter delimiter"),
            ),
        ),
        Some(j) => {
            let front_lines = crate::lines::line_range(&lines, 1, j);
            let body_lines = crate::lines::line_range(&lines, j + 1, lines.len());
            let sep = chars_of("\n");
            let front = join_chars(&front_lines, &sep);
            let body = join_chars(&body_lines, &sep);
            proof {
                assert(texts(lines@).subrange(j + 1, lines.len() as int) =~= texts(lines@).skip(
                    j + 1,
                ));
            }
            Ok(Some((string_of(&front), string_of(&body))))
        },
    }
}

fn trim_opt(o: &Option<String>) -> (r: Option<String>)
    ensures
        r.deep_view() == trimmed_opt(o.deep_view()),
{
    match o {
        Some(s) => Some(trim(s.as_str())),
        None => None,
    }
}

fn tidy(tools: &Vec<String>) -> (r: Vec<String>)
    ensures
        r.deep_view() == tidy_tools(tools.deep_view(), tools.deep_view().len() as int),
{
    let mut out: Vec<String> = Vec::new();
    let mut i: usize = 0;
    proof {
        assert(out.deep_view() =~= tidy_tools(tools.deep_view(), 0));
    }
    while i < tools.len()
        invariant
            i <= tools.len(),
            out.deep_view() == tidy_tools(tools.deep_view(), i as int),
        decreases tools.len() - i,
    {
        let ghost o0 = out.deep_view();
        let t = trim(tools[i].as_str());
        proof {
            crate::text::lemma_trimmed_empty(tools@[i as int]@);
        }
        if !t.as_str().is_empty() {
            out.push(t);
            proof {
                assert(out.deep_view() =~= o0.push(trimmed(tools.deep_view()[i as int])));
            }
        }
        i += 1;
    }
    out
}

pub open spec fn parsed_view(r: Result<ParsedTemplate, SlashCommandError>) -> Result<
    (FrontmatterMetadataView, Seq<char>),
    SlashCommandErrorView,
> {
    match r {
        Ok(t) => Ok((t.metadata.deep_view(), t.body@)),
        Err(e) => Err(e.deep_view()),
    }
}

/// Reads a command file. `decoded` is its front matter as the decoder
/// gave it; it is looked at only where the file has front matter that
/// is not blank.
pub fn parse_template(raw: &str, decoded: &Result<RawFrontmatter, String>) -> (r: Result<
    ParsedTemplate,
    SlashCommandError,
>)
    ensures
        parsed_view(r) == template_outcome(raw@, *decoded),
{
    let parts = match split_template(raw) {
        Err(e) => {
            return Err(e);
        },
        Ok(None) => {
            return Ok(
                ParsedTemplate {
                    metadata: FrontmatterMetadata::default(),
                    body: String::from_str(raw),
                },
            );
        },
        Ok(Some(p)) => p,
    };
    let (front_text, body) = parts;
    if blank(front_text.as_str()) {
        return Ok(ParsedTemplate { metadata: FrontmatterMetadata::default(), body });
    }
    let front = match decoded {
        Err(m) => {
            let mut message: Vec<char> = Vec::new();
            push_str(&mut message, "failed to parse frontmatter: ");
            push_str(&mut message, m.as_str());
            return Err(SlashCommandError::InvalidTemplate(string_of(&message)));
        },
        Ok(f) => f,
    };
    let metadata = FrontmatterMetadata {
        description: trim_opt(&front.description),
        argument_hint: trim_opt(&front.argument_hint),
        model: trim_opt(&front.model),
        allowed_tools: match &front.allowed_tools {
            Some(t) => Some(tidy(t)),
            None => None,
        },
    };
    Ok(ParsedTemplate { metadata, body })
}

} // verus!
