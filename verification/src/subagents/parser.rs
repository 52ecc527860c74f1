//! Reads a definition file: front matter between `---` lines, then the
//! instructions. The front matter itself is decoded elsewhere and
//! handed in.

use crate::copying::holds_text;
use crate::paths::file_stem;
use crate::search::{find_from, first_at, matches_at, occurs_at, starts_with};
use crate::subagents::definition::{
    initial_errors, normalized_name, SubagentDefinition, SubagentDefinitionView, SubagentScope,
};
use crate::text::{blank, chars_of, is_blank, string_of, sub_vec, trim, trimmed};
use vstd::prelude::*;

verus! {

#[derive(Debug, PartialEq, Eq)]
pub enum SubagentParserError {
    ParseError(String),
}

impl SubagentParserError {
    /// The text of the error.
    pub fn message(&self) -> (r: String)
        ensures
            r@ == "failed to parse subagent file: "@ + self->0@,
    {
        let mut out: Vec<char> = Vec::new();
        crate::text::push_str(&mut out, "failed to parse subagent file: ");
        match self {
            SubagentParserError::ParseError(m) => {
                crate::text::push_str(&mut out, m.as_str());
            },
        }
        string_of(&out)
    }
}

/// The decoded front matter of a definition file.
#[derive(Debug, PartialEq, Eq)]
pub struct SubagentFrontmatter {
    pub name: Option<String>,
    pub description: Option<String>,
    pub tools: Option<Vec<String>>,
    pub model: Option<String>,
}

pub struct SubagentFrontmatterView {
    pub name: Option<Seq<char>>,
    pub description: Option<Seq<char>>,
    pub tools: Option<Seq<Seq<char>>>,
    pub model: Option<Seq<char>>,
}

impl DeepView for SubagentFrontmatter {
    type V = SubagentFrontmatterView;

    open spec fn deep_view(&self) -> SubagentFrontmatterView {
        SubagentFrontmatterView {
            name: self.name.deep_view(),
            description: self.description.deep_view(),
            tools: self.tools.deep_view(),
            model: self.model.deep_view(),
        }
    }
}

/// `s` without a leading byte order mark.
pub open spec fn without_bom(s: Seq<char>) -> Seq<char> {
    if s.len() > 0 && s[0] == '\u{feff}' {
        s.skip(1)
    } else {
        s
    }
}

/// `s` without one leading line ending (`\r\n`, `\n` or `\r`).
pub open spec fn without_leading_newline(s: Seq<char>) -> Seq<char> {
    if s.len() >= 2 && s[0] == '\r' && s[1] == '\n' {
        s.skip(2)
    } else if s.len() >= 1 && (s[0] == '\n' || s[0] == '\r') {
        s.skip(1)
    } else {
        s
    }
}

pub open spec fn is_layout(c: char) -> bool {
    c == '\n' || c == '\r' || c == ' ' || c == '\t'
}

/// `s` without leading line endings, blanks and tabs.
pub open spec fn skip_layout(s: Seq<char>) -> Seq<char>
    decreases s.len(),
{
    if s.len() > 0 && is_layout(s[0]) {
        skip_layout(s.drop_first())
    } else {
        s
    }
}

/// `s` without its carriage returns.
pub open spec fn without_cr(s: Seq<char>) -> Seq<char>
    decreases s.len(),
{
    if s.len() == 0 {
        s
    } else if s.last() == '\r' {
        without_cr(s.drop_last())
    } else {
        without_cr(s.drop_last()).push(s.last())
    }
}

/// What the front matter opens with, and what closes it.
pub open spec fn opening_marker() -> Seq<char> {
    "---"@
}

pub open spec fn closing_marker() -> Seq<char> {
    "\n---"@
}

/// What follows the opening marker and its line ending.
pub open spec fn after_opening(contents: Seq<char>) -> Seq<char> {
    without_leading_newline(skip_layout(contents).skip(opening_marker().len() as int))
}

/// The two parts of a definition file, where it has both: the front
/// matter without carriage returns, and the body without its first
/// line ending. `at` is where the closing marker stands.
pub open spec fn parts_at(contents: Seq<char>, at: int) -> (Seq<char>, Seq<char>) {
    let rest = after_opening(contents);
    (
        without_cr(rest.take(at)),
        without_leading_newline(rest.skip(at + closing_marker().len())),
    )
}

/// The outcome of splitting a definition file.
pub open spec fn split_outcome(
    contents: Seq<char>,
    r: Result<(Seq<char>, Seq<char>), Seq<char>>,
) -> bool {
    if !starts_with(skip_layout(contents), opening_marker()) {
        r == Err::<(Seq<char>, Seq<char>), Seq<char>>(
            "subagent definitions must start with `---` frontmatter"@,
        )
    } else {
        let rest = after_opening(contents);
        match r {
            Ok(parts) => exists|at: int|
                first_at(rest, closing_marker(), 0, at) && parts == parts_at(contents, at),
            Err(m) => m == "unterminated YAML frontmatter"@ && forall|at: int|
                !occurs_at(rest, closing_marker(), at),
        }
    }
}

fn skip_newline(v: &Vec<char>, from: usize) -> (r: usize)
    requires
        from <= v.len(),
    ensures
        from <= r <= v.len(),
        v@.skip(r as int) == without_leading_newline(v@.skip(from as int)),
{
    let n = v.len();
    let r = if n - from >= 2 && v[from] == '\r' && v[from + 1] == '\n' {
        from + 2
    } else if n - from >= 1 && (v[from] == '\n' || v[from] == '\r') {
        from + 1
    } else {
        from
    };
    proof {
        let s = v@.skip(from as int);
        assert(s.len() == n - from);
        if s.len() >= 1 {
            assert(s[0] == v@[from as int]);
        }
        if s.len() >= 2 {
            assert(s[1] == v@[from + 1]);
        }
        assert(s.skip(r - from) =~= v@.skip(r as int));
        assert(s.skip(0) =~= s);
    }
    r
}

fn drop_cr(v: &Vec<char>, from: usize, to: usize) -> (out: Vec<char>)
    requires
        from <= to <= v.len(),
    ensures
        out@ == without_cr(v@.subrange(from as int, to as int)),
{
    let mut out: Vec<char> = Vec::new();
    let mut i: usize = from;
    proof {
        assert(v@.subrange(from as int, from as int) =~= Seq::<char>::empty());
    }
    while i < to
        invariant
            from <= i <= to <= v.len(),
            out@ == without_cr(v@.subrange(from as int, i as int)),
        decreases to - i,
    {
        proof {
            let next = v@.subrange(from as int, i + 1);
            assert(next.drop_last() =~= v@.subrange(from as int, i as int));
            assert(next.last() == v@[i as int]);
        }
        if v[i] != '\r' {
            out.push(v[i]);
        }
        i += 1;
    }
    out
}

/// `input` without a leading byte order mark.
pub fn trim_bom(input: &str) -> (r: String)
    ensures
        r@ == without_bom(input@),
{
    let v = chars_of(input);
    if v.len() > 0 && v[0] == '\u{feff}' {
        let w = sub_vec(&v, 1, v.len());
        proof {
            assert(v@.subrange(1, v.len() as int) =~= v@.skip(1));
        }
        string_of(&w)
    } else {
        string_of(&v)
    }
}

/// `input` without one leading line ending.
pub fn strip_leading_newline(input: &str) -> (r: String)
    ensures
        r@ == without_leading_newline(input@),
{
    let v = chars_of(input);
    proof {
        assert(v@.skip(0) =~= v@);
    }
    let k = skip_newline(&v, 0);
    let w = sub_vec(&v, k, v.len());
    proof {
        assert(v@.subrange(k as int, v.len() as int) =~= v@.skip(k as int));
    }
    string_of(&w)
}

/// Splits a definition file into front matter and body. The file must
/// open, after any blank lines, with `---`; the front matter ends at
/// the first line that begins with `---`.
pub fn extract_frontmatter(contents: &str) -> (r: Result<(String, String), SubagentParserError>)
    ensures
        split_outcome(
            contents@,
            match r {
                Ok(parts) => Ok((parts.0@, parts.1@)),
                Err(e) => Err(e->0@),
            },
        ),
{
    let v = chars_of(contents);
    let n = v.len();
    let mut a: usize = 0;
    proof {
        assert(v@.skip(0) =~= v@);
    }
    while a < n && (v[a] == '\n' || v[a] == '\r' || v[a] == ' ' || v[a] == '\t')
        invariant
            a <= n,
            n == v.len(),
            skip_layout(v@) == skip_layout(v@.skip(a as int)),
        decreases n - a,
    {
        proof {
            assert(v@.skip(a as int).drop_first() =~= v@.skip(a + 1));
        }
        a += 1;
    }
    let ghost t = v@.skip(a as int);
    proof {
        assert(skip_layout(t) == t);
    }
    let open = chars_of("---");
    if !matches_at(&v, &open, a) {
        proof {
            if starts_with(t, open@) {
                assert(t.subrange(0, open@.len() as int) =~= v@.subrange(
                    a as int,
                    a + open@.len(),
                ));
            }
        }
        return Err(
            SubagentParserError::ParseError(
                String::from_str("subagent definitions must start with `---` frontmatter"),
            ),
        );
    }
    proof {
        assert(t.subrange(0, open@.len() as int) =~= v@.subrange(a as int, a + open@.len()));
        assert(starts_with(t, open@));
        assert(t.skip(open@.len() as int) =~= v@.skip(a + open@.len()));
    }
    let b = skip_newline(&v, a + open.len());
    let ghost rest = v@.skip(b as int);
    let rest_vec = sub_vec(&v, b, n);
    proof {
        assert(v@.subrange(b as int, n as int) =~= rest);
        assert(rest == after_opening(contents@));
    }
    let close = chars_of("\n---");
    match find_from(&rest_vec, &close, 0) {
        None => {
            proof {
                assert forall|at: int| !occurs_at(rest, close@, at) by {
                    if at >= 0 {
                        assert(!occurs_at(rest_vec@, close@, at));
                    }
                }
            }
            Err(SubagentParserError::ParseError(String::from_str("unterminated YAML frontmatter")))
        },
        Some(at) => {
            let front = drop_cr(&rest_vec, 0, at);
            let body_from = skip_newline(&rest_vec, at + close.len());
            let body = sub_vec(&rest_vec, body_from, rest_vec.len());
            proof {
                assert(rest_vec@.subrange(0, at as int) =~= rest.take(at as int));
                assert(rest_vec@.subrange(body_from as int, rest_vec.len() as int)
                    =~= rest_vec@.skip(body_from as int));
                assert(first_at(rest, closing_marker(), 0, at as int));
                assert((front@, body@) == parts_at(contents@, at as int));
            }
            Ok((string_of(&front), string_of(&body)))
        },
    }
}

/// The name a definition goes by where its front matter gives none.
pub open spec fn fallback_name(stem: Option<Seq<char>>) -> Seq<char> {
    match stem {
        Some(s) => s,
        None => "subagent"@,
    }
}

/// The fallback name for the given file stem.
pub fn fallback_name_from_stem(stem: Option<String>) -> (r: String)
    ensures
        r@ == fallback_name(stem.deep_view()),
{
    match stem {
        Some(s) => s,
        None => String::from_str("subagent"),
    }
}

/// The fallback name for a definition file: its file stem as
/// `std::path` gives it, or "subagent".
pub fn fallback_name_from_path(path: &str) -> (r: String)
    ensures
        r@ == fallback_name(crate::paths::stem_of(path@)),
{
    let stem = file_stem(path);
    fallback_name_from_stem(stem)
}

/// A field that is present and not blank, trimmed.
pub open spec fn filled(field: Option<Seq<char>>) -> Option<Seq<char>> {
    match field {
        Some(s) => if is_blank(s) {
            None
        } else {
            Some(trimmed(s))
        },
        None => None,
    }
}

/// The tools of a definition: the entries trimmed, without the blank
/// ones and without repetitions, in order of first occurrence.
pub open spec fn cleaned_tools(entries: Seq<Seq<char>>) -> Seq<Seq<char>>
    decreases entries.len(),
{
    if entries.len() == 0 {
        Seq::empty()
    } else {
        let before = cleaned_tools(entries.drop_last());
        let t = trimmed(entries.last());
        if t.len() == 0 || before.contains(t) {
            before
        } else {
            before.push(t)
        }
    }
}

/// One error for each blank tool entry.
pub open spec fn tool_errors(entries: Seq<Seq<char>>) -> Seq<Seq<char>>
    decreases entries.len(),
{
    if entries.len() == 0 {
        Seq::empty()
    } else if is_blank(entries.last()) {
        tool_errors(entries.drop_last()).push("`tools` entries must be non-empty strings"@)
    } else {
        tool_errors(entries.drop_last())
    }
}

pub open spec fn one_if(condition: bool, message: Seq<char>) -> Seq<Seq<char>> {
    if condition {
        seq![message]
    } else {
        Seq::empty()
    }
}

/// The definition that a file gives: its name is the front matter's, or
/// the fallback where that is missing or blank; every shortcoming is
/// recorded as a validation error, in the order in which the checks are
/// listed here.
pub open spec fn definition_of(
    fallback: Seq<char>,
    path: Seq<char>,
    front: SubagentFrontmatterView,
    body: Seq<char>,
    scope: SubagentScope,
) -> SubagentDefinitionView {
    let name = match filled(front.name) {
        Some(n) => n,
        None => fallback,
    };
    let description = match front.description {
        Some(d) => trimmed(d),
        None => Seq::empty(),
    };
    SubagentDefinitionView {
        raw_name: name,
        name: normalized_name(name),
        description,
        tools: match front.tools {
            Some(entries) => cleaned_tools(entries),
            None => Seq::empty(),
        },
        model: filled(front.model),
        instructions: trimmed(body),
        scope,
        source_path: path,
        validation_errors: initial_errors(name, description) + (match front.tools {
            Some(entries) => tool_errors(entries),
            None => Seq::empty(),
        }) + one_if(
            is_blank(body),
            "subagent definition must include a Markdown instructions body"@,
        ) + one_if(
            filled(front.name) is None,
            "frontmatter is missing a non-empty `name` field"@,
        ) + one_if(
            filled(front.description) is None,
            "frontmatter is missing a non-empty `description` field"@,
        ),
    }
}

fn fill(field: &Option<String>) -> (r: Option<String>)
    ensures
        r.deep_view() == filled(field.deep_view()),
{
    match field {
        Some(s) => {
            let t = trim(s.as_str());
            proof {
                crate::text::lemma_trimmed_empty(s@);
            }
            if t.as_str().is_empty() {
                None
            } else {
                Some(t)
            }
        },
        None => None,
    }
}

/// Builds the definition from the parts of its file.
pub fn definition_from_parts(
    fallback: &str,
    path: &str,
    front: &SubagentFrontmatter,
    body: &str,
    scope: SubagentScope,
) -> (r: SubagentDefinition)
    ensures
        r.deep_view() == definition_of(fallback@, path@, front.deep_view(), body@, scope),
{
    let given_name = fill(&front.name);
    let name = match &given_name {
        Some(n) => n.clone(),
        None => String::from_str(fallback),
    };
    let description = match &front.description {
        Some(d) => trim(d.as_str()),
        None => String::new(),
    };
    let mut definition = SubagentDefinition::new(
        name.as_str(),
        description.as_str(),
        scope,
        path,
    );
    let ghost errors0 = definition.deep_view().validation_errors;
    match &front.tools {
        Some(entries) => {
            let mut tools: Vec<String> = Vec::new();
            let mut i: usize = 0;
            let ghost start = definition.deep_view();
            proof {
                assert(tools.deep_view() =~= cleaned_tools(entries.deep_view().take(0)));
                assert(errors0 =~= errors0 + tool_errors(entries.deep_view().take(0)));
            }
            while i < entries.len()
                invariant
                    i <= entries.len(),
                    tools.deep_view() == cleaned_tools(entries.deep_view().take(i as int)),
                    definition.deep_view() == (SubagentDefinitionView {
                        validation_errors: errors0 + tool_errors(
                            entries.deep_view().take(i as int),
                        ),
                        ..start
                    }),
                decreases entries.len() - i,
            {
                let ghost tools0 = tools.deep_view();
                let ghost errs = definition.deep_view().validation_errors;
                proof {
                    let next = entries.deep_view().take(i + 1);
                    assert(next.drop_last() =~= entries.deep_view().take(i as int));
                    assert(next.last() == entries.deep_view()[i as int]);
                    crate::text::lemma_trimmed_empty(entries.deep_view()[i as int]);
                }
                let t = trim(entries[i].as_str());
                if t.as_str().is_empty() {
                    definition.add_validation_error("`tools` entries must be non-empty strings");
                    proof {
                        assert(errs.push("`tools` entries must be non-empty strings"@) =~= errors0
                            + tool_errors(entries.deep_view().take(i + 1)));
                    }
                } else if !holds_text(&tools, t.as_str()) {
                    tools.push(t);
                    proof {
                        assert(tools.deep_view() =~= tools0.push(
                            trimmed(entries.deep_view()[i as int]),
                        ));
                    }
                }
                i += 1;
            }
            proof {
                assert(entries.deep_view().take(entries.len() as int) =~= entries.deep_view());
            }
            definition = definition.with_tools(tools);
        },
        None => {
            proof {
                assert(errors0 =~= errors0 + Seq::<Seq<char>>::empty());
            }
        },
    }
    let model = fill(&front.model);
    if model.is_some() {
        definition = definition.with_model(model);
    }
    let ghost errors1 = definition.deep_view().validation_errors;
    let body_text = trim(body);
    proof {
        crate::text::lemma_trimmed_empty(body@);
    }
    if body_text.as_str().is_empty() {
        definition.add_validation_error(
            "subagent definition must include a Markdown instructions body",
        );
    } else {
        definition.instructions = body_text;
    }
    let ghost errors2 = definition.deep_view().validation_errors;
    proof {
        assert(errors2 =~= errors1 + one_if(
            is_blank(body@),
            "subagent definition must include a Markdown instructions body"@,
        ));
    }
    if given_name.is_none() {
        definition.add_validation_error("frontmatter is missing a non-empty `name` field");
    }
    let ghost errors3 = definition.deep_view().validation_errors;
    proof {
        assert(errors3 =~= errors2 + one_if(
            filled(front.deep_view().name) is None,
            "frontmatter is missing a non-empty `name` field"@,
        ));
    }
    let given_description = fill(&front.description);
    if given_description.is_none() {
        definition.add_validation_error("frontmatter is missing a non-empty `description` field");
    }
    proof {
        let spec = definition_of(fallback@, path@, front.deep_view(), body@, scope);
        assert(definition.deep_view().validation_errors =~= spec.validation_errors);
        assert(definition.deep_view().tools =~= spec.tools);
        assert(definition.deep_view().instructions =~= spec.instructions);
    }
    definition
}

/// Reads one definition file. `decoded` is the front matter of
/// `contents` as the decoder gave it. The file is refused where it
/// does not split into front matter and body, and where the decoder
/// refused the front matter; otherwise the definition is built from
/// its parts, under the fallback name that the path gives.
pub fn parse_definition(
    path: &str,
    contents: &str,
    scope: SubagentScope,
    decoded: Result<SubagentFrontmatter, String>,
) -> (r: Result<SubagentDefinition, SubagentParserError>)
    ensures
        match extract_outcome(contents@) {
            None => r is Err && r->Err_0->0@ == split_failure(contents@),
            Some(at) => match decoded {
                Err(m) => r is Err && r->Err_0->0@ == m@,
                Ok(front) => r is Ok && r->Ok_0.deep_view() == definition_of(
                        fallback_name(crate::paths::stem_of(path@)),
                        path@,
                        front.deep_view(),
                        parts_at(without_bom(contents@), at).1,
                        scope,
                    ),
            },
        },
{
    let clean = trim_bom(contents);
    let (_front_text, body) = match extract_frontmatter(clean.as_str()) {
        Ok(parts) => parts,
        Err(e) => {
            proof {
                lemma_extract_none(without_bom(contents@));
            }
            return Err(e);
        },
    };
    proof {
        lemma_extract_some(without_bom(contents@), body@);
    }
    let front = match decoded {
        Ok(f) => f,
        Err(m) => {
            return Err(SubagentParserError::ParseError(m));
        },
    };
    let stem = file_stem(path);
    let ghost s = stem.deep_view();
    let fallback = fallback_name_from_stem(stem);
    let definition = definition_from_parts(fallback.as_str(), path, &front, body.as_str(), scope);
    proof {
        assert(definition.deep_view() == definition_of(
            fallback_name(s),
            path@,
            front.deep_view(),
            body@,
            scope,
        ));
    }
    Ok(definition)
}

/// What is said of a file (byte order mark aside) that does not
/// split: that it does not open with front matter, or that its front
/// matter is not closed.
pub open spec fn split_failure(contents: Seq<char>) -> Seq<char> {
    if !starts_with(skip_layout(without_bom(contents)), opening_marker()) {
        "subagent definitions must start with `---` frontmatter"@
    } else {
        "unterminated YAML frontmatter"@
    }
}

/// Where the closing marker of the front matter stands, if the file
/// (byte order mark aside) opens with front matter and closes it.
pub open spec fn extract_outcome(contents: Seq<char>) -> Option<int> {
    let clean = without_bom(contents);
    if !starts_with(skip_layout(clean), opening_marker()) {
        None
    } else if exists|at: int| first_at(after_opening(clean), closing_marker(), 0, at) {
        Some(choose|at: int| first_at(after_opening(clean), closing_marker(), 0, at))
    } else {
        None
    }
}

proof fn lemma_first_at_unique(s: Seq<char>, p: Seq<char>, i: int, j: int)
    requires
        first_at(s, p, 0, i),
        first_at(s, p, 0, j),
    ensures
        i == j,
{
}

proof fn lemma_extract_none(clean: Seq<char>)
    requires
        !starts_with(skip_layout(clean), opening_marker()) || forall|at: int|
            !occurs_at(after_opening(clean), closing_marker(), at),
    ensures
        !starts_with(skip_layout(clean), opening_marker()) || !exists|at: int|
            first_at(after_opening(clean), closing_marker(), 0, at),
{
}

proof fn lemma_extract_some(clean: Seq<char>, body: Seq<char>)
    requires
        starts_with(skip_layout(clean), opening_marker()),
        exists|at: int|
            first_at(after_opening(clean), closing_marker(), 0, at) && body == parts_at(
                clean,
                at,
            ).1,
    ensures
        exists|at: int| first_at(after_opening(clean), closing_marker(), 0, at),
        body == parts_at(
            clean,
            choose|at: int| first_at(after_opening(clean), closing_marker(), 0, at),
        ).1,
{
    let w = choose|at: int|
        first_at(after_opening(clean), closing_marker(), 0, at) && body == parts_at(clean, at).1;
    let c = choose|at: int| first_at(after_opening(clean), closing_marker(), 0, at);
    lemma_first_at_unique(after_opening(clean), closing_marker(), w, c);
}

} // verus!
