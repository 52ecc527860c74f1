//! The allow-list of Plan Mode: rules on tool ids and rules on shell
//! commands, compiled from entries.

use crate::copying::{copy_strings, holds_text};
use crate::glob::{matches_wildcard, wildcard_matches};
use crate::search::{chars_end_with, ends_with, matches_at, starts_with};
use crate::text::{
    blank, chars_of, is_blank, same_text, string_of, sub_vec, trim, trim_bounds, trimmed,
};
use vstd::prelude::*;

verus! {

/// The shell helpers that are always allowed.
pub open spec fn default_entries() -> Seq<Seq<char>> {
    seq![
        "shell(bash -lc cat *)"@,
        "shell(bash -lc find *)"@,
        "shell(bash -lc grep *)"@,
        "shell(bash -lc ls *)"@,
        "shell(bash -lc tree *)"@,
        "shell(bash -lc head *)"@,
        "shell(bash -lc tail *)"@,
        "shell(bash -lc stat *)"@,
        "shell(bash -lc pwd *)"@,
        "shell(bash -lc pwd)"@,
        "shell(bash -lc git status)"@,
        "shell(bash -lc git diff --stat)"@,
    ]
}

/// The default entries.
pub fn default_shell_entries() -> (r: Vec<String>)
    ensures
        r.deep_view() == default_entries(),
{
    let mut r: Vec<String> = Vec::new();
    r.push(String::from_str("shell(bash -lc cat *)"));
    r.push(String::from_str("shell(bash -lc find *)"));
    r.push(String::from_str("shell(bash -lc grep *)"));
    r.push(String::from_str("shell(bash -lc ls *)"));
    r.push(String::from_str("shell(bash -lc tree *)"));
    r.push(String::from_str("shell(bash -lc head *)"));
    r.push(String::from_str("shell(bash -lc tail *)"));
    r.push(String::from_str("shell(bash -lc stat *)"));
    r.push(String::from_str("shell(bash -lc pwd *)"));
    r.push(String::from_str("shell(bash -lc pwd)"));
    r.push(String::from_str("shell(bash -lc git status)"));
    r.push(String::from_str("shell(bash -lc git diff --stat)"));
    proof {
        assert(r.deep_view() =~= default_entries());
    }
    r
}

#[derive(Debug, PartialEq, Eq)]
pub enum ToolRule {
    Exact(String),
    Glob(String),
}

pub enum ToolRuleView {
    Exact(Seq<char>),
    Glob(Seq<char>),
}

impl DeepView for ToolRule {
    type V = ToolRuleView;

    open spec fn deep_view(&self) -> ToolRuleView {
        match self {
            ToolRule::Exact(id) => ToolRuleView::Exact(id@),
            ToolRule::Glob(p) => ToolRuleView::Glob(p@),
        }
    }
}

impl Clone for ToolRule {
    fn clone(&self) -> (r: Self)
        ensures
            r.deep_view() == self.deep_view(),
    {
        match self {
            ToolRule::Exact(id) => ToolRule::Exact(id.clone()),
            ToolRule::Glob(p) => ToolRule::Glob(p.clone()),
        }
    }
}

pub open spec fn rule_matches(rule: ToolRuleView, candidate: Seq<char>) -> bool {
    match rule {
        ToolRuleView::Exact(id) => id == candidate,
        ToolRuleView::Glob(p) => wildcard_matches(p, candidate),
    }
}

impl ToolRule {
    pub fn matches(&self, candidate: &str) -> (r: bool)
        ensures
            r == rule_matches(self.deep_view(), candidate@),
    {
        match self {
            ToolRule::Exact(id) => same_text(id.as_str(), candidate),
            ToolRule::Glob(p) => matches_wildcard(p.as_str(), candidate),
        }
    }
}

/// What one entry of the allow-list stands for.
pub enum EntryKind {
    Shell(Seq<char>),
    Tool(ToolRuleView),
    Ignored,
}

pub open spec fn shell_prefix() -> Seq<char> {
    "shell("@
}

pub open spec fn closing_paren() -> Seq<char> {
    ")"@
}

/// What stands between `shell(` and the closing parenthesis, where the
/// entry has that form.
pub open spec fn shell_argument(entry: Seq<char>) -> Option<Seq<char>> {
    if starts_with(entry, shell_prefix()) && ends_with(
        entry.skip(shell_prefix().len() as int),
        closing_paren(),
    ) {
        let rest = entry.skip(shell_prefix().len() as int);
        Some(rest.take(rest.len() - closing_paren().len()))
    } else {
        None
    }
}

/// The pattern of a shell rule: the argument of `shell(..)`, trimmed,
/// where it is not blank.
pub open spec fn shell_pattern(entry: Seq<char>) -> Option<Seq<char>> {
    match shell_argument(entry) {
        Some(arg) => if is_blank(arg) {
            None
        } else {
            Some(trimmed(arg))
        },
        None => None,
    }
}

pub open spec fn is_wildcard_char(c: char) -> bool {
    c == '*' || c == '?' || c == '['
}

/// The entry holds `*`, `?` or `[`.
pub open spec fn has_wildcard(entry: Seq<char>) -> bool {
    exists|i: int| 0 <= i < entry.len() && is_wildcard_char(#[trigger] entry[i])
}

/// An entry of the form `shell(<pattern>)` is a rule on shell commands,
/// and none at all where its pattern is blank. Any other entry is a
/// rule on tool ids: a glob where it holds a wildcard character, else
/// an exact id.
pub open spec fn entry_kind(entry: Seq<char>) -> EntryKind {
    match shell_argument(entry) {
        Some(arg) => if is_blank(arg) {
            EntryKind::Ignored
        } else {
            EntryKind::Shell(trimmed(arg))
        },
        None => if has_wildcard(entry) {
            EntryKind::Tool(ToolRuleView::Glob(entry))
        } else {
            EntryKind::Tool(ToolRuleView::Exact(entry))
        },
    }
}

/// `entries` without repetitions, in order of first occurrence.
pub open spec fn distinct(entries: Seq<Seq<char>>) -> Seq<Seq<char>>
    decreases entries.len(),
{
    if entries.len() == 0 {
        Seq::empty()
    } else {
        let before = distinct(entries.drop_last());
        if before.contains(entries.last()) {
            before
        } else {
            before.push(entries.last())
        }
    }
}

/// The user's entries, trimmed, without the blank ones.
pub open spec fn cleaned(user: Seq<Seq<char>>) -> Seq<Seq<char>>
    decreases user.len(),
{
    if user.len() == 0 {
        Seq::empty()
    } else if is_blank(user.last()) {
        cleaned(user.drop_last())
    } else {
        cleaned(user.drop_last()).push(trimmed(user.last()))
    }
}

pub open spec fn tool_rules_of(raw: Seq<Seq<char>>) -> Seq<ToolRuleView>
    decreases raw.len(),
{
    if raw.len() == 0 {
        Seq::empty()
    } else {
        match entry_kind(raw.last()) {
            EntryKind::Tool(rule) => tool_rules_of(raw.drop_last()).push(rule),
            _ => tool_rules_of(raw.drop_last()),
        }
    }
}

pub open spec fn shell_rules_of(raw: Seq<Seq<char>>) -> Seq<Seq<char>>
    decreases raw.len(),
{
    if raw.len() == 0 {
        Seq::empty()
    } else {
        match entry_kind(raw.last()) {
            EntryKind::Shell(p) => shell_rules_of(raw.drop_last()).push(p),
            _ => shell_rules_of(raw.drop_last()),
        }
    }
}

pub struct PlanModeAllowListView {
    pub raw_entries: Seq<Seq<char>>,
    pub tool_rules: Seq<ToolRuleView>,
    pub shell_rules: Seq<Seq<char>>,
}

/// The allow-list that the user's entries give: the default entries
/// first, then the user's, each entry once.
pub open spec fn allow_list_of(user: Seq<Seq<char>>) -> PlanModeAllowListView {
    let raw = distinct(default_entries() + cleaned(user));
    PlanModeAllowListView {
        raw_entries: raw,
        tool_rules: tool_rules_of(raw),
        shell_rules: shell_rules_of(raw),
    }
}

/// Some tool rule matches `candidate`.
pub open spec fn any_tool_rule(rules: Seq<ToolRuleView>, candidate: Seq<char>) -> bool {
    exists|i: int| 0 <= i < rules.len() && rule_matches(#[trigger] rules[i], candidate)
}

/// Some shell rule matches some candidate.
pub open spec fn any_shell_rule(rules: Seq<Seq<char>>, candidates: Seq<Seq<char>>) -> bool {
    exists|i: int, j: int|
        0 <= i < rules.len() && 0 <= j < candidates.len() && wildcard_matches(
            #[trigger] rules[i],
            #[trigger] candidates[j],
        )
}

/// Whether a command is allowed, given the file names of its words:
/// it is not empty, and some shell rule matches one of its candidates.
pub open spec fn shell_verdict(
    rules: Seq<Seq<char>>,
    command: Seq<Seq<char>>,
    names: Seq<Option<Seq<char>>>,
) -> bool {
    command.len() > 0 && any_shell_rule(
        rules,
        crate::plan_mode::shell::candidates_of(command, names),
    )
}

#[derive(Debug)]
pub struct PlanModeAllowList {
    pub raw_entries: Vec<String>,
    pub tool_rules: Vec<ToolRule>,
    pub shell_rules: Vec<String>,
}

impl DeepView for PlanModeAllowList {
    type V = PlanModeAllowListView;

    open spec fn deep_view(&self) -> PlanModeAllowListView {
        PlanModeAllowListView {
            raw_entries: self.raw_entries.deep_view(),
            tool_rules: self.tool_rules.deep_view(),
            shell_rules: self.shell_rules.deep_view(),
        }
    }
}

impl Clone for PlanModeAllowList {
    fn clone(&self) -> (r: Self)
        ensures
            r.deep_view() == self.deep_view(),
    {
        let mut tool_rules: Vec<ToolRule> = Vec::new();
        let mut i: usize = 0;
        while i < self.tool_rules.len()
            invariant
                i <= self.tool_rules.len(),
                tool_rules@.len() == i,
                forall|j: int|
                    0 <= j < i ==> (#[trigger] tool_rules@[j]).deep_view()
                        == self.tool_rules@[j].deep_view(),
            decreases self.tool_rules.len() - i,
        {
            tool_rules.push(self.tool_rules[i].clone());
            i += 1;
        }
        proof {
            assert(tool_rules.deep_view() =~= self.tool_rules.deep_view());
        }
        PlanModeAllowList {
            raw_entries: copy_strings(&self.raw_entries),
            tool_rules,
            shell_rules: copy_strings(&self.shell_rules),
        }
    }
}

/// The pattern of the shell rule that `entry` stands for.
pub fn parse_shell_pattern(entry: &str) -> (r: Option<String>)
    ensures
        r.deep_view() == shell_pattern(entry@),
{
    let v = chars_of(entry);
    let prefix = chars_of("shell(");
    let close = chars_of(")");
    if !matches_at(&v, &prefix, 0) {
        return None;
    }
    let rest = sub_vec(&v, prefix.len(), v.len());
    proof {
        assert(v@.subrange(prefix.len() as int, v.len() as int) =~= v@.skip(prefix.len() as int));
    }
    if !chars_end_with(&rest, &close) {
        return None;
    }
    let arg = sub_vec(&rest, 0, rest.len() - close.len());
    proof {
        assert(rest@.subrange(0, rest.len() - close.len()) =~= rest@.take(
            rest.len() - close.len(),
        ));
        crate::text::lemma_trimmed_empty(arg@);
    }
    let (a, b) = trim_bounds(&arg);
    if a == b {
        None
    } else {
        let p = sub_vec(&arg, a, b);
        Some(string_of(&p))
    }
}

/// Whether `entry` holds `*`, `?` or `[`.
pub fn is_wildcard(entry: &str) -> (r: bool)
    ensures
        r == has_wildcard(entry@),
{
    let v = chars_of(entry);
    let mut i: usize = 0;
    while i < v.len()
        invariant
            i <= v.len(),
            v@ == entry@,
            forall|j: int| 0 <= j < i ==> !is_wildcard_char(#[trigger] v@[j]),
        decreases v.len() - i,
    {
        if v[i] == '*' || v[i] == '?' || v[i] == '[' {
            proof {
                assert(is_wildcard_char(entry@[i as int]));
            }
            return true;
        }
        i += 1;
    }
    false
}

/// The entries that stand for no rule, in order: those of the form
/// `shell(..)` with a blank pattern.
pub open spec fn ignored_of(raw: Seq<Seq<char>>) -> Seq<Seq<char>>
    decreases raw.len(),
{
    if raw.len() == 0 {
        Seq::empty()
    } else {
        match entry_kind(raw.last()) {
            EntryKind::Ignored => ignored_of(raw.drop_last()).push(raw.last()),
            _ => ignored_of(raw.drop_last()),
        }
    }
}

/// One compiled entry.
enum Compiled {
    Shell(String),
    Tool(ToolRule),
    Ignored,
}

impl Compiled {
    spec fn kind(self) -> EntryKind {
        match self {
            Compiled::Shell(p) => EntryKind::Shell(p@),
            Compiled::Tool(rule) => EntryKind::Tool(rule.deep_view()),
            Compiled::Ignored => EntryKind::Ignored,
        }
    }
}

fn compile_entry(entry: &str) -> (r: Compiled)
    ensures
        r.kind() == entry_kind(entry@),
{
    let v = chars_of(entry);
    let prefix = chars_of("shell(");
    let close = chars_of(")");
    let mut shell_form = false;
    if matches_at(&v, &prefix, 0) {
        let rest = sub_vec(&v, prefix.len(), v.len());
        proof {
            assert(v@.subrange(prefix.len() as int, v.len() as int) =~= v@.skip(
                prefix.len() as int,
            ));
        }
        if chars_end_with(&rest, &close) {
            shell_form = true;
            let arg = sub_vec(&rest, 0, rest.len() - close.len());
            proof {
                assert(rest@.subrange(0, rest.len() - close.len()) =~= rest@.take(
                    rest.len() - close.len(),
                ));
                crate::text::lemma_trimmed_empty(arg@);
            }
            let (a, b) = trim_bounds(&arg);
            if a == b {
                return Compiled::Ignored;
            } else {
                let p = sub_vec(&arg, a, b);
                return Compiled::Shell(string_of(&p));
            }
        }
    }
    if is_wildcard(entry) {
        Compiled::Tool(ToolRule::Glob(String::from_str(entry)))
    } else {
        Compiled::Tool(ToolRule::Exact(String::from_str(entry)))
    }
}

fn gather_entries(entries: &Vec<String>) -> (all: Vec<String>)
    ensures
        all.deep_view() == default_entries() + cleaned(entries.deep_view()),
{
    let mut all = default_shell_entries();
    let mut i: usize = 0;
    proof {
        assert(all.deep_view() =~= default_entries() + cleaned(entries.deep_view().take(0)));
    }
    while i < entries.len()
        invariant
            i <= entries.len(),
            all.deep_view() == default_entries() + cleaned(entries.deep_view().take(i as int)),
        decreases entries.len() - i,
    {
        let ghost a0 = all.deep_view();
        proof {
            let next = entries.deep_view().take(i + 1);
            assert(next.drop_last() =~= entries.deep_view().take(i as int));
            assert(next.last() == entries.deep_view()[i as int]);
            crate::text::lemma_trimmed_empty(entries.deep_view()[i as int]);
        }
        let t = trim(entries[i].as_str());
        if !t.as_str().is_empty() {
            all.push(t);
            proof {
                assert(all.deep_view() =~= a0.push(trimmed(entries.deep_view()[i as int])));
                assert(a0.push(trimmed(entries.deep_view()[i as int])) =~= default_entries()
                    + cleaned(entries.deep_view().take(i + 1)));
            }
        }
        i += 1;
    }
    proof {
        assert(entries.deep_view().take(entries.len() as int) =~= entries.deep_view());
    }
    all
}

fn dedup_entries(all: &Vec<String>) -> (raw: Vec<String>)
    ensures
        raw.deep_view() == distinct(all.deep_view()),
{
    let mut raw: Vec<String> = Vec::new();
    let mut k: usize = 0;
    proof {
        assert(raw.deep_view() =~= distinct(all.deep_view().take(0)));
    }
    while k < all.len()
        invariant
            k <= all.len(),
            raw.deep_view() == distinct(all.deep_view().take(k as int)),
        decreases all.len() - k,
    {
        let ghost raw0 = raw.deep_view();
        proof {
            let next = all.deep_view().take(k + 1);
            assert(next.drop_last() =~= all.deep_view().take(k as int));
            assert(next.last() == all.deep_view()[k as int]);
        }
        if !holds_text(&raw, all[k].as_str()) {
            raw.push(all[k].clone());
            proof {
                assert(raw.deep_view() =~= raw0.push(all.deep_view()[k as int]));
            }
        }
        k += 1;
    }
    proof {
        assert(all.deep_view().take(all.len() as int) =~= all.deep_view());
    }
    raw
}

fn compile_rules(raw: &Vec<String>) -> (r: (Vec<ToolRule>, Vec<String>))
    ensures
        r.0.deep_view() == tool_rules_of(raw.deep_view()),
        r.1.deep_view() == shell_rules_of(raw.deep_view()),
{
    let mut tool_rules: Vec<ToolRule> = Vec::new();
    let mut shell_rules: Vec<String> = Vec::new();
    let mut k: usize = 0;
    proof {
        assert(tool_rules.deep_view() =~= tool_rules_of(raw.deep_view().take(0)));
        assert(shell_rules.deep_view() =~= shell_rules_of(raw.deep_view().take(0)));
    }
    while k < raw.len()
        invariant
            k <= raw.len(),
            tool_rules.deep_view() == tool_rules_of(raw.deep_view().take(k as int)),
            shell_rules.deep_view() == shell_rules_of(raw.deep_view().take(k as int)),
        decreases raw.len() - k,
    {
        let ghost tools0 = tool_rules.deep_view();
        let ghost shells0 = shell_rules.deep_view();
        proof {
            let next = raw.deep_view().take(k + 1);
            assert(next.drop_last() =~= raw.deep_view().take(k as int));
            assert(next.last() == raw.deep_view()[k as int]);
        }
        match compile_entry(raw[k].as_str()) {
            Compiled::Shell(p) => {
                let ghost pv = p@;
                shell_rules.push(p);
                proof {
                    assert(shell_rules.deep_view() =~= shells0.push(pv));
                }
            },
            Compiled::Tool(rule) => {
                let ghost rv = rule.deep_view();
                tool_rules.push(rule);
                proof {
                    assert(tool_rules.deep_view() =~= tools0.push(rv));
                }
            },
            Compiled::Ignored => {},
        }
        k += 1;
    }
    proof {
        assert(raw.deep_view().take(raw.len() as int) =~= raw.deep_view());
    }
    (tool_rules, shell_rules)
}

impl PlanModeAllowList {
    /// Compiles the allow-list: the default shell helpers are always
    /// part of it, whatever the user lists.
    pub fn new(entries: &Vec<String>) -> (r: Self)
        ensures
            r.deep_view() == allow_list_of(entries.deep_view()),
    {
        let all = gather_entries(entries);
        let raw_entries = dedup_entries(&all);
        let (tool_rules, shell_rules) = compile_rules(&raw_entries);
        PlanModeAllowList { raw_entries, tool_rules, shell_rules }
    }

    /// The entries of the list that were ignored, for the caller to
    /// report: they stand for no rule.
    pub fn ignored_entries(&self) -> (r: Vec<String>)
        ensures
            r.deep_view() == ignored_of(self.deep_view().raw_entries),
    {
        let mut out: Vec<String> = Vec::new();
        let mut k: usize = 0;
        proof {
            assert(out.deep_view() =~= ignored_of(self.raw_entries.deep_view().take(0)));
        }
        while k < self.raw_entries.len()
            invariant
                k <= self.raw_entries.len(),
                out.deep_view() == ignored_of(self.raw_entries.deep_view().take(k as int)),
            decreases self.raw_entries.len() - k,
        {
            let ghost out0 = out.deep_view();
            proof {
                let next = self.raw_entries.deep_view().take(k + 1);
                assert(next.drop_last() =~= self.raw_entries.deep_view().take(k as int));
                assert(next.last() == self.raw_entries.deep_view()[k as int]);
            }
            match compile_entry(self.raw_entries[k].as_str()) {
                Compiled::Ignored => {
                    let entry = self.raw_entries[k].clone();
                    out.push(entry);
                    proof {
                        assert(out.deep_view() =~= out0.push(self.raw_entries[k as int]@));
                    }
                },
                _ => {},
            }
            k += 1;
        }
        proof {
            assert(self.raw_entries.deep_view().take(self.raw_entries.len() as int)
                =~= self.raw_entries.deep_view());
        }
        out
    }

    /// The entries as they were given, defaults first.
    pub fn raw_entries(&self) -> (r: &Vec<String>)
        ensures
            r.deep_view() == self.deep_view().raw_entries,
    {
        &self.raw_entries
    }

    pub open spec fn exact_ids(rules: Seq<ToolRuleView>) -> Seq<Seq<char>>
        decreases rules.len(),
    {
        if rules.len() == 0 {
            Seq::empty()
        } else {
            match rules.last() {
                ToolRuleView::Exact(id) => Self::exact_ids(rules.drop_last()).push(id),
                ToolRuleView::Glob(_) => Self::exact_ids(rules.drop_last()),
            }
        }
    }

    /// The ids of the exact tool rules, in order.
    pub fn literal_tool_ids(&self) -> (r: Vec<String>)
        ensures
            r.deep_view() == Self::exact_ids(self.deep_view().tool_rules),
    {
        let mut out: Vec<String> = Vec::new();
        let mut i: usize = 0;
        proof {
            assert(out.deep_view() =~= Self::exact_ids(self.tool_rules.deep_view().take(0)));
        }
        while i < self.tool_rules.len()
            invariant
                i <= self.tool_rules.len(),
                out.deep_view() == Self::exact_ids(self.tool_rules.deep_view().take(i as int)),
            decreases self.tool_rules.len() - i,
        {
            let ghost o0 = out.deep_view();
            proof {
                let next = self.tool_rules.deep_view().take(i + 1);
                assert(next.drop_last() =~= self.tool_rules.deep_view().take(i as int));
                assert(next.last() == self.tool_rules.deep_view()[i as int]);
            }
            match &self.tool_rules[i] {
                ToolRule::Exact(id) => {
                    out.push(id.clone());
                    proof {
                        assert(out.deep_view() =~= o0.push(id@));
                    }
                },
                ToolRule::Glob(_) => {},
            }
            i += 1;
        }
        proof {
            assert(self.tool_rules.deep_view().take(self.tool_rules.len() as int)
                =~= self.tool_rules.deep_view());
        }
        out
    }

    pub fn has_tool_rules(&self) -> (r: bool)
        ensures
            r == (self.deep_view().tool_rules.len() > 0),
    {
        self.tool_rules.len() > 0
    }

    /// Whether some tool rule matches `candidate`.
    pub fn matches_tool(&self, candidate: &str) -> (r: bool)
        ensures
            r == any_tool_rule(self.deep_view().tool_rules, candidate@),
    {
        let mut i: usize = 0;
        while i < self.tool_rules.len()
            invariant
                i <= self.tool_rules.len(),
                forall|j: int|
                    0 <= j < i ==> !rule_matches(
                        #[trigger] self.tool_rules.deep_view()[j],
                        candidate@,
                    ),
            decreases self.tool_rules.len() - i,
        {
            if self.tool_rules[i].matches(candidate) {
                assert(rule_matches(self.tool_rules.deep_view()[i as int], candidate@));
                return true;
            }
            i += 1;
        }
        false
    }

    /// Whether some shell rule matches one of `candidates`.
    pub fn matches_candidates(&self, candidates: &Vec<String>) -> (r: bool)
        ensures
            r == any_shell_rule(self.deep_view().shell_rules, candidates.deep_view()),
    {
        let mut i: usize = 0;
        while i < self.shell_rules.len()
            invariant
                i <= self.shell_rules.len(),
                forall|a: int, b: int|
                    0 <= a < i && 0 <= b < candidates.len() ==> !wildcard_matches(
                        #[trigger] self.shell_rules.deep_view()[a],
                        #[trigger] candidates.deep_view()[b],
                    ),
            decreases self.shell_rules.len() - i,
        {
            let mut j: usize = 0;
            while j < candidates.len()
                invariant
                    i < self.shell_rules.len(),
                    j <= candidates.len(),
                    forall|a: int, b: int|
                        0 <= a < i && 0 <= b < candidates.len() ==> !wildcard_matches(
                            #[trigger] self.shell_rules.deep_view()[a],
                            #[trigger] candidates.deep_view()[b],
                        ),
                    forall|b: int|
                        0 <= b < j ==> !wildcard_matches(
                            self.shell_rules.deep_view()[i as int],
                            #[trigger] candidates.deep_view()[b],
                        ),
                decreases candidates.len() - j,
            {
                if matches_wildcard(self.shell_rules[i].as_str(), candidates[j].as_str()) {
                    assert(wildcard_matches(
                        self.shell_rules.deep_view()[i as int],
                        candidates.deep_view()[j as int],
                    ));
                    return true;
                }
                j += 1;
            }
            i += 1;
        }
        false
    }

    /// Whether the command is allowed: some shell rule matches the
    /// command as written or, where a shell wraps it, the wrapped
    /// command. The candidates are those that `shell_command_candidates`
    /// gives for the command.
    pub fn matches_shell_command(&self, command: &Vec<String>) -> (r: bool)
        ensures
            r == shell_verdict(
                self.deep_view().shell_rules,
                command.deep_view(),
                crate::plan_mode::shell::names_of(command.deep_view()),
            ),
    {
        if command.len() == 0 {
            proof {
                assert(command.deep_view().len() == 0);
            }
            return false;
        }
        let names = crate::plan_mode::shell::executable_names(command);
        let candidates = crate::plan_mode::shell::candidates_named(command, &names);
        proof {
            assert(command.deep_view().len() == command@.len());
        }
        self.matches_candidates(&candidates)
    }
}

} // verus!
