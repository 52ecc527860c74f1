//! The commands that were found, by name.

use crate::clock::Timestamp;
use crate::order::{sort_distinct, sorted_distinct, str_lt, text_lt};
use crate::parse_support::{skip_slashes, without_slashes};
use crate::search::{has_prefix, starts_with};
use crate::slash_commands::command::{full, qualified, Command, CommandView};
use crate::slash_commands::errors::{SlashCommandError, SlashCommandErrorView};
use crate::text::{
    char_is_space, chars_of, is_space, same_text, skip_spaces, string_of, sub_vec, trim,
    trim_bounds, trimmed,
};
use vstd::prelude::*;

verus! {

#[derive(Debug)]
pub enum CommandLookup {
    NotFound { suggestions: Vec<String> },
    Ambiguous { matches: Vec<String> },
    Command(Command),
}

pub enum CommandLookupView {
    NotFound { suggestions: Seq<Seq<char>> },
    Ambiguous { matches: Seq<Seq<char>> },
    Command(CommandView),
}

impl DeepView for CommandLookup {
    type V = CommandLookupView;

    open spec fn deep_view(&self) -> CommandLookupView {
        match self {
            CommandLookup::NotFound { suggestions } => CommandLookupView::NotFound {
                suggestions: suggestions.deep_view(),
            },
            CommandLookup::Ambiguous { matches } => CommandLookupView::Ambiguous {
                matches: matches.deep_view(),
            },
            CommandLookup::Command(c) => CommandLookupView::Command(c.deep_view()),
        }
    }
}

/// The characters of `s` before its first white space.
pub open spec fn first_word(s: Seq<char>) -> Seq<char>
    decreases s.len(),
{
    if s.len() == 0 || is_space(s[0]) {
        Seq::empty()
    } else {
        seq![s[0]] + first_word(s.drop_first())
    }
}

/// The name that a query asks for: the query trimmed, without leading
/// slashes, up to its first white space.
pub open spec fn query_name(input: Seq<char>) -> Seq<char> {
    first_word(skip_spaces(without_slashes(trimmed(input))))
}

/// The first command whose full name is `name`.
pub open spec fn by_full_name(commands: Seq<CommandView>, name: Seq<char>) -> Option<CommandView>
    decreases commands.len(),
{
    if commands.len() == 0 {
        None
    } else if full(commands[0]) == name {
        Some(commands[0])
    } else {
        by_full_name(commands.drop_first(), name)
    }
}

/// The full names of those of the first `n` commands whose qualified
/// name is `name`.
pub open spec fn full_names_of(commands: Seq<CommandView>, name: Seq<char>, n: int) -> Seq<
    Seq<char>,
>
    decreases n,
{
    if n <= 0 {
        Seq::empty()
    } else if qualified(commands[n - 1]) == name {
        full_names_of(commands, name, n - 1).push(full(commands[n - 1]))
    } else {
        full_names_of(commands, name, n - 1)
    }
}

/// The full names of those of the first `n` commands whose qualified
/// name (or, with `by_full`, whose full name) begins with `prefix`.
pub open spec fn names_beginning(
    commands: Seq<CommandView>,
    prefix: Seq<char>,
    by_full: bool,
    n: int,
) -> Seq<Seq<char>>
    decreases n,
{
    if n <= 0 {
        Seq::empty()
    } else {
        let c = commands[n - 1];
        let key = if by_full {
            full(c)
        } else {
            qualified(c)
        };
        if starts_with(key, prefix) {
            names_beginning(commands, prefix, by_full, n - 1).push(full(c))
        } else {
            names_beginning(commands, prefix, by_full, n - 1)
        }
    }
}

pub open spec fn at_most_eight(s: Seq<Seq<char>>) -> Seq<Seq<char>> {
    if s.len() > 8 {
        s.take(8)
    } else {
        s
    }
}

/// Up to eight names to suggest for a name that was not found: the
/// full names of the commands whose qualified name begins with it or,
/// if there are none, of those whose full name does; in ascending
/// order, each once.
pub open spec fn suggestions(commands: Seq<CommandView>, name: Seq<char>) -> Seq<Seq<char>> {
    if name.len() == 0 {
        Seq::empty()
    } else {
        let by_qualified = names_beginning(commands, name, false, commands.len() as int);
        if by_qualified.len() > 0 {
            at_most_eight(sorted_distinct(by_qualified))
        } else {
            at_most_eight(
                sorted_distinct(names_beginning(commands, name, true, commands.len() as int)),
            )
        }
    }
}

/// What looking a name up gives: the command of that full name; else
/// the one command of that qualified name; several commands of that
/// qualified name make the name ambiguous; otherwise it is not found.
pub open spec fn lookup_outcome(commands: Seq<CommandView>, input: Seq<char>) -> CommandLookupView {
    let name = query_name(input);
    if name.len() == 0 {
        CommandLookupView::NotFound { suggestions: Seq::empty() }
    } else {
        match by_full_name(commands, name) {
            Some(c) => CommandLookupView::Command(c),
            None => {
                let m = full_names_of(commands, name, commands.len() as int);
                if m.len() == 1 && by_full_name(commands, m[0]) is Some {
                    CommandLookupView::Command(by_full_name(commands, m[0])->0)
                } else if m.len() > 1 {
                    CommandLookupView::Ambiguous { matches: sorted_distinct(m) }
                } else {
                    CommandLookupView::NotFound { suggestions: suggestions(commands, name) }
                }
            },
        }
    }
}

/// The position behind the last of `s` whose full name does not come
/// after that of `c`.
pub open spec fn bound_by_name(s: Seq<CommandView>, c: CommandView) -> int
    decreases s.len(),
{
    if s.len() == 0 {
        0
    } else if !text_lt(full(c), full(s.last())) {
        s.len() as int
    } else {
        bound_by_name(s.drop_last(), c)
    }
}

/// The first `n` commands in ascending order of their full names.
pub open spec fn by_name(commands: Seq<CommandView>, n: int) -> Seq<CommandView>
    decreases n,
{
    if n <= 0 {
        Seq::empty()
    } else {
        let before = by_name(commands, n - 1);
        before.insert(bound_by_name(before, commands[n - 1]), commands[n - 1])
    }
}

pub struct CommandRegistryView {
    pub commands: Seq<CommandView>,
    pub last_loaded: Option<Timestamp>,
}

#[derive(Debug)]
pub struct CommandRegistry {
    pub commands: Vec<Command>,
    pub last_loaded: Option<Timestamp>,
}

impl DeepView for CommandRegistry {
    type V = CommandRegistryView;

    open spec fn deep_view(&self) -> CommandRegistryView {
        CommandRegistryView {
            commands: self.commands.deep_view(),
            last_loaded: self.last_loaded,
        }
    }
}

impl Default for CommandRegistry {
    fn default() -> (r: Self)
        ensures
            r.deep_view() == (CommandRegistryView { commands: Seq::empty(), last_loaded: None }),
    {
        CommandRegistry::new()
    }
}

/// The name that a query asks for.
pub fn normalize_query(input: &str) -> (r: String)
    ensures
        r@ == query_name(input@),
{
    let t = trim(input);
    let v = chars_of(t.as_str());
    let from = skip_slashes(&v);
    let rest = sub_vec(&v, from, v.len());
    proof {
        assert(v@.subrange(from as int, v.len() as int) =~= v@.skip(from as int));
    }
    let (a, _b) = trim_bounds(&rest);
    let text = sub_vec(&rest, a, rest.len());
    proof {
        assert(rest@.subrange(a as int, rest.len() as int) =~= rest@.skip(a as int));
    }
    let mut e: usize = 0;
    proof {
        assert(text@.skip(0) =~= text@);
        assert(text@.take(0) =~= Seq::<char>::empty());
        assert(Seq::<char>::empty() + first_word(text@) =~= first_word(text@));
    }
    while e < text.len() && !char_is_space(text[e])
        invariant
            e <= text.len(),
            first_word(text@) == text@.take(e as int) + first_word(text@.skip(e as int)),
        decreases text.len() - e,
    {
        proof {
            let s = text@.skip(e as int);
            assert(s[0] == text@[e as int]);
            assert(s.drop_first() =~= text@.skip(e + 1));
            assert(text@.take(e as int) + (seq![text@[e as int]] + first_word(text@.skip(e + 1)))
                =~= text@.take(e + 1) + first_word(text@.skip(e + 1)));
        }
        e += 1;
    }
    proof {
        let s = text@.skip(e as int);
        if s.len() > 0 {
            assert(s[0] == text@[e as int]);
        }
        assert(first_word(s) =~= Seq::<char>::empty());
        assert(text@.take(e as int) + Seq::<char>::empty() =~= text@.take(e as int));
    }
    let word = sub_vec(&text, 0, e);
    proof {
        assert(text@.subrange(0, e as int) =~= text@.take(e as int));
    }
    string_of(&word)
}

fn position_by_name(sorted: &Vec<Command>, c: &Command) -> (k: usize)
    ensures
        k == bound_by_name(sorted.deep_view(), c.deep_view()),
        k <= sorted.len(),
{
    let name = c.full_name();
    let mut k: usize = sorted.len();
    proof {
        assert(sorted.deep_view().take(k as int) =~= sorted.deep_view());
    }
    while k > 0
        invariant
            k <= sorted.len(),
            name@ == full(c.deep_view()),
            bound_by_name(sorted.deep_view(), c.deep_view()) == bound_by_name(
                sorted.deep_view().take(k as int),
                c.deep_view(),
            ),
        decreases k,
    {
        let other = sorted[k - 1].full_name();
        proof {
            let t = sorted.deep_view().take(k as int);
            assert(t.last() == sorted@[k - 1].deep_view());
            assert(t.drop_last() =~= sorted.deep_view().take(k - 1));
        }
        if !str_lt(name.as_str(), other.as_str()) {
            return k;
        }
        k -= 1;
    }
    k
}

fn first_n(mut names: Vec<String>) -> (r: Vec<String>)
    ensures
        r.deep_view() == at_most_eight(names.deep_view()),
{
    let ghost n0 = names.deep_view();
    if names.len() > 8 {
        names.truncate(8);
        proof {
            assert(names.deep_view() =~= n0.take(8));
        }
    }
    names
}

impl CommandRegistry {
    pub fn new() -> (r: Self)
        ensures
            r.deep_view() == (CommandRegistryView { commands: Seq::empty(), last_loaded: None }),
    {
        let commands: Vec<Command> = Vec::new();
        proof {
            assert(commands.deep_view() =~= Seq::<CommandView>::empty());
        }
        CommandRegistry { commands, last_loaded: None }
    }

    /// Forgets every command, as the first step of loading them anew.
    pub fn begin_reload(&mut self)
        ensures
            final(self).deep_view() == (CommandRegistryView {
                commands: Seq::empty(),
                last_loaded: old(self).last_loaded,
            }),
    {
        self.commands = Vec::new();
        proof {
            assert(self.commands.deep_view() =~= Seq::<CommandView>::empty());
        }
    }

    /// Notes when the commands were loaded, as the last step of loading
    /// them.
    pub fn finish_reload(&mut self, at: Timestamp)
        ensures
            final(self).deep_view() == (CommandRegistryView {
                last_loaded: Some(at),
                ..old(self).deep_view()
            }),
    {
        self.last_loaded = Some(at);
    }

    fn find_full(&self, name: &str) -> (r: Option<&Command>)
        ensures
            r.deep_view() == by_full_name(self.commands.deep_view(), name@),
    {
        let mut i: usize = 0;
        proof {
            assert(self.commands.deep_view().skip(0) =~= self.commands.deep_view());
        }
        while i < self.commands.len()
            invariant
                i <= self.commands.len(),
                by_full_name(self.commands.deep_view(), name@) == by_full_name(
                    self.commands.deep_view().skip(i as int),
                    name@,
                ),
            decreases self.commands.len() - i,
        {
            proof {
                assert(self.commands.deep_view().skip(i as int).drop_first()
                    =~= self.commands.deep_view().skip(i + 1));
            }
            let f = self.commands[i].full_name();
            if same_text(f.as_str(), name) {
                return Some(&self.commands[i]);
            }
            i += 1;
        }
        None
    }

    fn names_with_qualified(&self, name: &str) -> (r: Vec<String>)
        ensures
            r.deep_view() == full_names_of(
                self.commands.deep_view(),
                name@,
                self.commands.deep_view().len() as int,
            ),
    {
        let mut out: Vec<String> = Vec::new();
        let mut i: usize = 0;
        proof {
            assert(out.deep_view() =~= full_names_of(self.commands.deep_view(), name@, 0));
        }
        while i < self.commands.len()
            invariant
                i <= self.commands.len(),
                out.deep_view() == full_names_of(self.commands.deep_view(), name@, i as int),
            decreases self.commands.len() - i,
        {
            let ghost o0 = out.deep_view();
            let q = self.commands[i].qualified_name();
            if same_text(q.as_str(), name) {
                out.push(self.commands[i].full_name());
                proof {
                    assert(out.deep_view() =~= o0.push(full(self.commands.deep_view()[i as int])));
                }
            }
            i += 1;
        }
        out
    }

    fn names_with_prefix(&self, prefix: &str, by_full: bool) -> (r: Vec<String>)
        ensures
            r.deep_view() == names_beginning(
                self.commands.deep_view(),
                prefix@,
                by_full,
                self.commands.deep_view().len() as int,
            ),
    {
        let mut out: Vec<String> = Vec::new();
        let mut i: usize = 0;
        proof {
            assert(out.deep_view() =~= names_beginning(
                self.commands.deep_view(),
                prefix@,
                by_full,
                0,
            ));
        }
        while i < self.commands.len()
            invariant
                i <= self.commands.len(),
                out.deep_view() == names_beginning(
                    self.commands.deep_view(),
                    prefix@,
                    by_full,
                    i as int,
                ),
            decreases self.commands.len() - i,
        {
            let ghost o0 = out.deep_view();
            let key = if by_full {
                self.commands[i].full_name()
            } else {
                self.commands[i].qualified_name()
            };
            if has_prefix(key.as_str(), prefix) {
                out.push(self.commands[i].full_name());
                proof {
                    assert(out.deep_view() =~= o0.push(full(self.commands.deep_view()[i as int])));
                }
            }
            i += 1;
        }
        out
    }

    /// Names to suggest for a name that was not found.
    pub fn suggestions_for(&self, normalized: &str) -> (r: Vec<String>)
        ensures
            r.deep_view() == suggestions(self.deep_view().commands, normalized@),
    {
        if normalized.is_empty() {
            let r: Vec<String> = Vec::new();
            proof {
                assert(r.deep_view() =~= Seq::<Seq<char>>::empty());
            }
            return r;
        }
        let by_qualified = self.names_with_prefix(normalized, false);
        if by_qualified.len() > 0 {
            first_n(sort_distinct(&by_qualified))
        } else {
            let by_full = self.names_with_prefix(normalized, true);
            first_n(sort_distinct(&by_full))
        }
    }

    /// Looks a command up by the name that a query asks for.
    pub fn lookup(&self, name: &str) -> (r: CommandLookup)
        ensures
            r.deep_view() == lookup_outcome(self.deep_view().commands, name@),
    {
        let normalized = normalize_query(name);
        if normalized.as_str().is_empty() {
            let suggestions: Vec<String> = Vec::new();
            proof {
                assert(suggestions.deep_view() =~= Seq::<Seq<char>>::empty());
            }
            return CommandLookup::NotFound { suggestions };
        }
        match self.find_full(normalized.as_str()) {
            Some(c) => {
                return CommandLookup::Command(c.clone());
            },
            None => {},
        }
        let matches = self.names_with_qualified(normalized.as_str());
        if matches.len() == 1 {
            match self.find_full(matches[0].as_str()) {
                Some(c) => {
                    return CommandLookup::Command(c.clone());
                },
                None => {},
            }
        } else if matches.len() > 1 {
            return CommandLookup::Ambiguous { matches: sort_distinct(&matches) };
        }
        CommandLookup::NotFound { suggestions: self.suggestions_for(normalized.as_str()) }
    }

    /// Adds a command, unless one of its full name is there already.
    pub fn insert(&mut self, command: Command) -> (r: Result<(), SlashCommandError>)
        ensures
            match by_full_name(old(self).deep_view().commands, full(command.deep_view())) {
                Some(_) => r is Err && r->Err_0.deep_view()
                    == (SlashCommandErrorView::DuplicateCommand {
                    name: full(command.deep_view()),
                }) && final(self).deep_view() == old(self).deep_view(),
                None => r is Ok && final(self).deep_view() == (CommandRegistryView {
                    commands: old(self).deep_view().commands.push(command.deep_view()),
                    ..old(self).deep_view()
                }),
            },
    {
        let full_name = command.full_name();
        if self.find_full(full_name.as_str()).is_some() {
            return Err(SlashCommandError::DuplicateCommand { name: full_name });
        }
        let ghost c0 = self.commands.deep_view();
        self.commands.push(command);
        proof {
            assert(self.commands.deep_view() =~= c0.push(command.deep_view()));
        }
        Ok(())
    }

    /// All commands, in ascending order of their full names.
    pub fn all(&self) -> (r: Vec<Command>)
        ensures
            r.deep_view() == by_name(
                self.deep_view().commands,
                self.deep_view().commands.len() as int,
            ),
    {
        let mut out: Vec<Command> = Vec::new();
        let mut i: usize = 0;
        proof {
            assert(out.deep_view() =~= by_name(self.commands.deep_view(), 0));
        }
        while i < self.commands.len()
            invariant
                i <= self.commands.len(),
                out.deep_view() == by_name(self.commands.deep_view(), i as int),
            decreases self.commands.len() - i,
        {
            let ghost o0 = out.deep_view();
            let c = self.commands[i].clone();
            let name = c.full_name();
            let k = position_by_name(&out, &c);
            let ghost cv = c.deep_view();
            out.insert(k, c);
            proof {
                assert(out.deep_view() =~= o0.insert(k as int, cv));
            }
            i += 1;
        }
        out
    }

    pub fn last_loaded(&self) -> (r: Option<Timestamp>)
        ensures
            r == self.deep_view().last_loaded,
    {
        self.last_loaded
    }
}

} // verus!
