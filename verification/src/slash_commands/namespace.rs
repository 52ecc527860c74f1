//! The namespace of a command: the directories between the commands
//! directory and the command's file.

use crate::paths::{components, path_parts, PathPart, PathPartView};
use crate::search::has_text;
use crate::slash_commands::errors::{SlashCommandError, SlashCommandErrorView};
use crate::text::{blank, is_blank, trim, trimmed};
use vstd::prelude::*;

verus! {

pub open spec fn has_colon(s: Seq<char>) -> bool {
    crate::search::contains_text(s, ":"@)
}

/// What the first `n` components of a path give: the names of the
/// directories, trimmed, without the blank ones. A step to the parent
/// directory, a name that holds a colon and a name that is not valid
/// Unicode are refused; the first of these ends it.
pub open spec fn namespace_of(parts: Seq<PathPartView>, n: int) -> Result<
    Seq<Seq<char>>,
    SlashCommandErrorView,
>
    decreases n,
{
    if n <= 0 {
        Ok(Seq::empty())
    } else {
        match namespace_of(parts, n - 1) {
            Err(e) => Err(e),
            Ok(before) => match parts[n - 1] {
                PathPartView::CurDir => Ok(before),
                PathPartView::RootDir => Ok(before),
                PathPartView::Prefix => Ok(before),
                PathPartView::ParentDir => Err(
                    SlashCommandErrorView::InvalidNamespace { component: ".."@ },
                ),
                PathPartView::NotUnicode(lossy) => Err(
                    SlashCommandErrorView::InvalidNamespace { component: lossy },
                ),
                PathPartView::Normal(name) => if is_blank(name) {
                    Ok(before)
                } else if has_colon(trimmed(name)) {
                    Err(SlashCommandErrorView::InvalidNamespace { component: trimmed(name) })
                } else {
                    Ok(before.push(trimmed(name)))
                },
            },
        }
    }
}

pub open spec fn namespace_view(r: Result<Vec<String>, SlashCommandError>) -> Result<
    Seq<Seq<char>>,
    SlashCommandErrorView,
> {
    match r {
        Ok(v) => Ok(v.deep_view()),
        Err(e) => Err(e.deep_view()),
    }
}

proof fn lemma_namespace_error_stays(parts: Seq<PathPartView>, n: int, m: int)
    requires
        0 <= n <= m,
        namespace_of(parts, n) is Err,
    ensures
        namespace_of(parts, m) == namespace_of(parts, n),
    decreases m - n,
{
    if n < m {
        lemma_namespace_error_stays(parts, n, m - 1);
    }
}

/// The namespace that the components of a directory path give.
pub fn namespace_from_parts(parts: &Vec<PathPart>) -> (r: Result<Vec<String>, SlashCommandError>)
    ensures
        namespace_view(r) == namespace_of(parts.deep_view(), parts@.len() as int),
{
    let mut out: Vec<String> = Vec::new();
    let mut i: usize = 0;
    proof {
        assert(out.deep_view() =~= Seq::<Seq<char>>::empty());
    }
    while i < parts.len()
        invariant
            i <= parts.len(),
            namespace_of(parts.deep_view(), i as int) == Ok::<Seq<Seq<char>>, SlashCommandErrorView>(
                out.deep_view(),
            ),
        decreases parts.len() - i,
    {
        let ghost o0 = out.deep_view();
        proof {
            assert(parts.deep_view()[i as int] == parts@[i as int].deep_view());
        }
        match &parts[i] {
            PathPart::CurDir => {},
            PathPart::RootDir => {},
            PathPart::Prefix => {},
            PathPart::ParentDir => {
                proof {
                    lemma_namespace_error_stays(parts.deep_view(), i + 1, parts@.len() as int);
                }
                return Err(
                    SlashCommandError::InvalidNamespace { component: String::from_str("..") },
                );
            },
            PathPart::NotUnicode(lossy) => {
                proof {
                    lemma_namespace_error_stays(parts.deep_view(), i + 1, parts@.len() as int);
                }
                return Err(SlashCommandError::InvalidNamespace { component: lossy.clone() });
            },
            PathPart::Normal(name) => {
                let segment = trim(name.as_str());
                proof {
                    crate::text::lemma_trimmed_empty(name@);
                }
                if !segment.as_str().is_empty() {
                    if has_text(segment.as_str(), ":") {
                        proof {
                            lemma_namespace_error_stays(parts.deep_view(), i + 1, parts@.len() as int);
                        }
                        return Err(SlashCommandError::InvalidNamespace { component: segment });
                    }
                    out.push(segment);
                    proof {
                        assert(out.deep_view() =~= o0.push(trimmed(name@)));
                    }
                }
            },
        }
        i += 1;
    }
    Ok(out)
}

/// The namespace of the directory `dir`, from its components as
/// `std::path` gives them.
pub fn build_namespace_components(dir: &str) -> (r: Result<Vec<String>, SlashCommandError>)
    ensures
        namespace_view(r) == namespace_of(path_parts(dir@), path_parts(dir@).len() as int),
{
    let parts = components(dir);
    proof {
        assert(parts.deep_view().len() == parts@.len());
    }
    namespace_from_parts(&parts)
}

} // verus!
