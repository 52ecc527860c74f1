//! Which texts a shell command is matched as: the command as written
//! and, where a shell wraps it, the wrapped command.

use crate::lines::{join, joined, string_texts};
use crate::text::{char_lower, chars_of, lowered, same_chars, string_of};
use vstd::prelude::*;

verus! {

/// The lower-case names of the programs that count as shells.
pub open spec fn is_shell_name(name: Seq<char>) -> bool {
    ||| name == "sh"@
    ||| name == "bash"@
    ||| name == "zsh"@
    ||| name == "dash"@
    ||| name == "ksh"@
    ||| name == "ash"@
    ||| name == "busybox"@
    ||| name == "fish"@
    ||| name == "elvish"@
    ||| name == "pwsh"@
    ||| name == "powershell"@
    ||| name == "powershell.exe"@
    ||| name == "cmd"@
    ||| name == "cmd.exe"@
}

/// The flags after which a shell takes the command to run.
pub open spec fn shell_flags(shell: Seq<char>) -> Seq<Seq<char>> {
    if shell == "sh"@ || shell == "bash"@ || shell == "zsh"@ || shell == "dash"@ || shell == "ksh"@
        || shell == "ash"@ || shell == "busybox"@ {
        seq!["-c"@, "-lc"@]
    } else if shell == "fish"@ || shell == "elvish"@ {
        seq!["-c"@]
    } else if shell == "pwsh"@ || shell == "powershell"@ || shell == "powershell.exe"@ {
        seq!["-c"@, "-command"@, "-Command"@]
    } else if shell == "cmd"@ || shell == "cmd.exe"@ {
        seq!["/c"@, "/C"@]
    } else {
        Seq::empty()
    }
}

pub open spec fn is_env_name(name: Seq<char>) -> bool {
    name == "env"@ || name == "env.exe"@
}

/// `arg` is one of `flags`, case aside.
pub open spec fn is_flag(flags: Seq<Seq<char>>, arg: Seq<char>) -> bool {
    exists|i: int| 0 <= i < flags.len() && lowered(#[trigger] flags[i]) == lowered(arg)
}

/// The position of the first argument after `from` that is one of
/// `flags`.
pub open spec fn first_flag(
    command: Seq<Seq<char>>,
    flags: Seq<Seq<char>>,
    from: int,
) -> Option<int>
    decreases command.len() - from,
{
    if from >= command.len() {
        None
    } else if is_flag(flags, command[from]) {
        Some(from)
    } else {
        first_flag(command, flags, from + 1)
    }
}

/// Where the wrapped command begins, if a shell wraps it. `names[i]`
/// is the lower-case file name of `command[i]`, or `None` where it has
/// none. Leading `env` words are passed over; then a shell must
/// follow, and the wrapped command is what follows its command flag.
pub open spec fn wrapped_from(
    command: Seq<Seq<char>>,
    names: Seq<Option<Seq<char>>>,
    at: int,
) -> Option<int>
    decreases command.len() - at,
{
    if at < 0 || at >= command.len() || at >= names.len() {
        None
    } else {
        match names[at] {
            None => None,
            Some(name) => if is_env_name(name) {
                if command.len() - at <= 1 {
                    None
                } else {
                    wrapped_from(command, names, at + 1)
                }
            } else if !is_shell_name(name) {
                None
            } else {
                match first_flag(command, shell_flags(name), at + 1) {
                    Some(i) => if i + 1 < command.len() {
                        Some(i + 1)
                    } else {
                        None
                    },
                    None => None,
                }
            },
        }
    }
}

/// The texts a command is matched as.
pub open spec fn candidates_of(command: Seq<Seq<char>>, names: Seq<Option<Seq<char>>>) -> Seq<
    Seq<char>,
> {
    let whole = joined(command, " "@);
    let first = if whole.len() > 0 {
        seq![whole]
    } else {
        Seq::<Seq<char>>::empty()
    };
    match wrapped_from(command, names, 0) {
        Some(i) => {
            let inner = joined(command.skip(i), " "@);
            if inner.len() > 0 && !first.contains(inner) {
                first.push(inner)
            } else {
                first
            }
        },
        None => first,
    }
}

fn lower_text(s: &str) -> (r: Vec<char>)
    ensures
        r@ == lowered(s@),
{
    let v = chars_of(s);
    let mut low: Vec<char> = Vec::new();
    let mut i: usize = 0;
    while i < v.len()
        invariant
            i <= v.len(),
            low@ == lowered(v@).take(i as int),
        decreases v.len() - i,
    {
        low.push(char_lower(v[i]));
        proof {
            assert(low@ =~= lowered(v@).take(i + 1));
        }
        i += 1;
    }
    proof {
        assert(lowered(v@).take(v.len() as int) =~= lowered(v@));
    }
    low
}

fn is_text(v: &Vec<char>, literal: &str) -> (r: bool)
    ensures
        r == (v@ == literal@),
{
    let l = chars_of(literal);
    same_chars(v, &l)
}

/// Whether the lower-case name is that of a shell.
pub fn is_shell_executable(name: &str) -> (r: bool)
    ensures
        r == is_shell_name(name@),
{
    let v = chars_of(name);
    is_text(&v, "sh") || is_text(&v, "bash") || is_text(&v, "zsh") || is_text(&v, "dash")
        || is_text(&v, "ksh") || is_text(&v, "ash") || is_text(&v, "busybox") || is_text(
        &v,
        "fish",
    ) || is_text(&v, "elvish") || is_text(&v, "pwsh") || is_text(&v, "powershell") || is_text(
        &v,
        "powershell.exe",
    ) || is_text(&v, "cmd") || is_text(&v, "cmd.exe")
}

/// The command flags of the shell with the given lower-case name.
pub fn shell_command_flags(shell: &str) -> (r: Vec<String>)
    ensures
        r.deep_view() == shell_flags(shell@),
{
    let v = chars_of(shell);
    let mut out: Vec<String> = Vec::new();
    if is_text(&v, "sh") || is_text(&v, "bash") || is_text(&v, "zsh") || is_text(&v, "dash")
        || is_text(&v, "ksh") || is_text(&v, "ash") || is_text(&v, "busybox") {
        out.push(String::from_str("-c"));
        out.push(String::from_str("-lc"));
        proof {
            assert(out.deep_view() =~= seq!["-c"@, "-lc"@]);
        }
    } else if is_text(&v, "fish") || is_text(&v, "elvish") {
        out.push(String::from_str("-c"));
        proof {
            assert(out.deep_view() =~= seq!["-c"@]);
        }
    } else if is_text(&v, "pwsh") || is_text(&v, "powershell") || is_text(&v, "powershell.exe") {
        out.push(String::from_str("-c"));
        out.push(String::from_str("-command"));
        out.push(String::from_str("-Command"));
        proof {
            assert(out.deep_view() =~= seq!["-c"@, "-command"@, "-Command"@]);
        }
    } else if is_text(&v, "cmd") || is_text(&v, "cmd.exe") {
        out.push(String::from_str("/c"));
        out.push(String::from_str("/C"));
        proof {
            assert(out.deep_view() =~= seq!["/c"@, "/C"@]);
        }
    } else {
        proof {
            assert(out.deep_view() =~= Seq::<Seq<char>>::empty());
        }
    }
    out
}

fn arg_is_flag(flags: &Vec<String>, arg: &str) -> (r: bool)
    ensures
        r == is_flag(flags.deep_view(), arg@),
{
    let low = lower_text(arg);
    let mut i: usize = 0;
    while i < flags.len()
        invariant
            i <= flags.len(),
            low@ == lowered(arg@),
            forall|j: int| 0 <= j < i ==> lowered(#[trigger] flags.deep_view()[j]) != lowered(arg@),
        decreases flags.len() - i,
    {
        let f = lower_text(flags[i].as_str());
        if same_chars(&f, &low) {
            assert(lowered(flags.deep_view()[i as int]) == lowered(arg@));
            return true;
        }
        i += 1;
    }
    false
}

/// The name under which a word of a command counts as a program: its
/// file name as `std::path` gives it, in lower case; `None` where the
/// word has no file name.
pub open spec fn program_name(word: Seq<char>) -> Option<Seq<char>> {
    match crate::paths::name_of(word) {
        Some(n) => Some(lowered(n)),
        None => None,
    }
}

/// The names of the words of a command, one by one.
pub open spec fn names_of(command: Seq<Seq<char>>) -> Seq<Option<Seq<char>>> {
    command.map_values(|w: Seq<char>| program_name(w))
}

/// The lower-case file name of each word of `command`, as `std::path`
/// gives it; `None` where a word has none.
pub fn executable_names(command: &Vec<String>) -> (r: Vec<Option<String>>)
    ensures
        r.deep_view() == names_of(command.deep_view()),
        r@.len() == command@.len(),
{
    let mut out: Vec<Option<String>> = Vec::new();
    let mut i: usize = 0;
    let ghost all = command.deep_view();
    let ghost f = |w: Seq<char>| program_name(w);
    proof {
        assert(out.deep_view() =~= all.take(0).map_values(f));
    }
    while i < command.len()
        invariant
            i <= command.len(),
            out@.len() == i,
            all == command.deep_view(),
            f == (|w: Seq<char>| program_name(w)),
            out.deep_view() == all.take(i as int).map_values(f),
        decreases command.len() - i,
    {
        let ghost o0 = out.deep_view();
        let name = match crate::paths::file_name(command[i].as_str()) {
            Some(n) => {
                let low = lower_text(n.as_str());
                Some(string_of(&low))
            },
            None => None,
        };
        proof {
            assert(all[i as int] == command@[i as int]@);
            assert(name.deep_view() == program_name(all[i as int]));
        }
        out.push(name);
        proof {
            assert(all.take(i + 1) =~= all.take(i as int).push(all[i as int]));
            assert(out.deep_view() =~= o0.push(program_name(all[i as int])));
            assert(out.deep_view() =~= all.take(i + 1).map_values(f));
        }
        i += 1;
    }
    proof {
        assert(all.take(all.len() as int) =~= all);
    }
    out
}

/// Where the wrapped command begins, given the words' file names.
pub fn strip_shell_wrapper_named(command: &Vec<String>, names: &Vec<Option<String>>) -> (r: Option<
    usize,
>)
    ensures
        match r {
            Some(i) => wrapped_from(command.deep_view(), names.deep_view(), 0) == Some(i as int)
                && i < command.len(),
            None => wrapped_from(command.deep_view(), names.deep_view(), 0) is None,
        },
{
    let mut at: usize = 0;
    loop
        invariant
            at <= command.len(),
            wrapped_from(command.deep_view(), names.deep_view(), 0) == wrapped_from(
                command.deep_view(),
                names.deep_view(),
                at as int,
            ),
        decreases command.len() - at,
    {
        if at >= command.len() || at >= names.len() {
            return None;
        }
        let name = match &names[at] {
            Some(n) => n,
            None => {
                return None;
            },
        };
        proof {
            assert(names.deep_view()[at as int] == Some(name@));
        }
        let v = chars_of(name.as_str());
        if is_text(&v, "env") || is_text(&v, "env.exe") {
            if command.len() - at <= 1 {
                return None;
            }
            at += 1;
            continue ;
        }
        if !is_shell_executable(name.as_str()) {
            return None;
        }
        let flags = shell_command_flags(name.as_str());
        return match find_flag(command, &flags, at + 1) {
            Some(idx) => if idx + 1 < command.len() {
                Some(idx + 1)
            } else {
                None
            },
            None => None,
        };
    }
}

fn find_flag(command: &Vec<String>, flags: &Vec<String>, from: usize) -> (r: Option<usize>)
    requires
        from <= command.len(),
    ensures
        match r {
            Some(i) => first_flag(command.deep_view(), flags.deep_view(), from as int) == Some(
                i as int,
            ) && from <= i < command.len(),
            None => first_flag(command.deep_view(), flags.deep_view(), from as int) is None,
        },
{
    let mut idx: usize = from;
    while idx < command.len()
        invariant
            from <= idx <= command.len(),
            first_flag(command.deep_view(), flags.deep_view(), from as int) == first_flag(
                command.deep_view(),
                flags.deep_view(),
                idx as int,
            ),
        decreases command.len() - idx,
    {
        proof {
            assert(command.deep_view()[idx as int] == command@[idx as int]@);
        }
        if arg_is_flag(flags, command[idx].as_str()) {
            return Some(idx);
        }
        idx += 1;
    }
    None
}

/// The wrapped command, where a shell wraps `command`.
pub fn strip_shell_wrapper(command: &Vec<String>) -> (r: Option<Vec<String>>)
    ensures
        r.deep_view() == (match wrapped_from(
            command.deep_view(),
            names_of(command.deep_view()),
            0,
        ) {
            Some(at) => Some(command.deep_view().skip(at)),
            None => None,
        }),
{
    let names = executable_names(command);
    match strip_shell_wrapper_named(command, &names) {
        Some(i) => Some(tail_from(command, i)),
        None => None,
    }
}

fn tail_from(command: &Vec<String>, from: usize) -> (r: Vec<String>)
    requires
        from <= command.len(),
    ensures
        r.deep_view() == command.deep_view().skip(from as int),
{
    let mut out: Vec<String> = Vec::new();
    let mut i: usize = from;
    while i < command.len()
        invariant
            from <= i <= command.len(),
            out@.len() == i - from,
            forall|j: int| 0 <= j < i - from ==> (#[trigger] out@[j])@ == command@[from + j]@,
        decreases command.len() - i,
    {
        out.push(command[i].clone());
        i += 1;
    }
    proof {
        assert(out.deep_view() =~= command.deep_view().skip(from as int));
    }
    out
}

/// The texts `command` is matched as, given the words' file names.
pub fn candidates_named(command: &Vec<String>, names: &Vec<Option<String>>) -> (r: Vec<String>)
    ensures
        r.deep_view() == candidates_of(command.deep_view(), names.deep_view()),
{
    let mut out: Vec<String> = Vec::new();
    let whole = join(command, " ");
    proof {
        assert(string_texts(command@) =~= command.deep_view());
        assert(out.deep_view() =~= Seq::<Seq<char>>::empty());
    }
    if !whole.as_str().is_empty() {
        out.push(whole);
        proof {
            assert(out.deep_view() =~= seq![joined(command.deep_view(), " "@)]);
        }
    }
    let ghost first = out.deep_view();
    match strip_shell_wrapper_named(command, names) {
        Some(i) => {
            let rest = tail_from(command, i);
            let inner = join(&rest, " ");
            proof {
                assert(string_texts(rest@) =~= rest.deep_view());
            }
            if !inner.as_str().is_empty() && !crate::copying::holds_text(&out, inner.as_str()) {
                out.push(inner);
                proof {
                    assert(out.deep_view() =~= first.push(
                        joined(command.deep_view().skip(i as int), " "@),
                    ));
                }
            }
        },
        None => {},
    }
    out
}

/// The texts `command` is matched as.
pub fn shell_command_candidates(command: &Vec<String>) -> (r: Vec<String>)
    ensures
        r.deep_view() == candidates_of(command.deep_view(), names_of(command.deep_view())),
{
    let names = executable_names(command);
    candidates_named(command, &names)
}

} // verus!
