//! Paths are held as text. What a path's parts are is asked of
//! `std::path`. Its answers read neither the disk nor the environment:
//! each depends on the texts given alone, and has a name here. The
//! names stand for `std::path` as it is built for one family of
//! platforms: for Windows it takes `\` for a separator too and knows
//! prefixes such as `C:`, for Unix it does not.

use std::path::Component;
use std::path::Path;
use vstd::prelude::*;

verus! {

/// One component of a path, as `std::path::Path::components` yields it.
/// A normal component that is not valid Unicode carries its lossy text
/// in `NotUnicode`.
#[derive(Debug, PartialEq, Eq)]
pub enum PathPart {
    Prefix,
    RootDir,
    CurDir,
    ParentDir,
    Normal(String),
    NotUnicode(String),
}

pub enum PathPartView {
    Prefix,
    RootDir,
    CurDir,
    ParentDir,
    Normal(Seq<char>),
    NotUnicode(Seq<char>),
}

impl DeepView for PathPart {
    type V = PathPartView;

    open spec fn deep_view(&self) -> PathPartView {
        match self {
            PathPart::Prefix => PathPartView::Prefix,
            PathPart::RootDir => PathPartView::RootDir,
            PathPart::CurDir => PathPartView::CurDir,
            PathPart::ParentDir => PathPartView::ParentDir,
            PathPart::Normal(name) => PathPartView::Normal(name@),
            PathPart::NotUnicode(name) => PathPartView::NotUnicode(name@),
        }
    }
}

/// The file stem of a path as `Path::file_stem` gives it: the file
/// name without its extension; `None` where the path has no file name.
pub uninterp spec fn stem_of(path: Seq<char>) -> Option<Seq<char>>;

/// The file name of a path as `Path::file_name` gives it: its last
/// component, where that is a normal one.
pub uninterp spec fn name_of(path: Seq<char>) -> Option<Seq<char>>;

/// The extension of a path as `Path::extension` gives it: what
/// follows the last dot of the file name, where there is one that
/// does not open the name.
pub uninterp spec fn extension_of(path: Seq<char>) -> Option<Seq<char>>;

/// The parent of a path as `Path::parent` gives it: the path without
/// its last component; `None` for a root and for the empty path.
pub uninterp spec fn parent_of(path: Seq<char>) -> Option<Seq<char>>;

/// The path that `Path::join` makes of two: the second one where that
/// is absolute, else the second behind the first.
pub uninterp spec fn joined_path(base: Seq<char>, rest: Seq<char>) -> Seq<char>;

/// Whether a path is absolute, as `Path::is_absolute` says.
pub uninterp spec fn path_is_absolute(path: Seq<char>) -> bool;

/// The components of a path as `Path::components` gives them.
pub uninterp spec fn path_parts(path: Seq<char>) -> Seq<PathPartView>;

/// The `Debug` form of a path: the path between quotation marks, with
/// its special characters escaped.
pub uninterp spec fn path_debug_text(path: Seq<char>) -> Seq<char>;

/// Whether the components of `base` open those of `path`, as
/// `Path::starts_with` says.
pub uninterp spec fn path_starts_with(path: Seq<char>, base: Seq<char>) -> bool;

/// `Path::file_stem`, where it is valid Unicode (a path that is held
/// as text has no other). The result depends on the path alone.
#[verifier::external_body]
pub(crate) fn file_stem(path: &str) -> (r: Option<String>)
    ensures
        r.deep_view() == stem_of(path@),
{
    Path::new(path).file_stem().and_then(|s| s.to_str()).map(str::to_owned)
}

/// `Path::file_name`, where it is valid Unicode. The result depends
/// on the path alone.
#[verifier::external_body]
pub(crate) fn file_name(path: &str) -> (r: Option<String>)
    ensures
        r.deep_view() == name_of(path@),
{
    Path::new(path).file_name().and_then(|s| s.to_str()).map(str::to_owned)
}

/// `Path::extension`, where it is valid Unicode. The result depends
/// on the path alone.
#[verifier::external_body]
pub(crate) fn extension(path: &str) -> (r: Option<String>)
    ensures
        r.deep_view() == extension_of(path@),
{
    Path::new(path).extension().and_then(|s| s.to_str()).map(str::to_owned)
}

/// `Path::parent`. The result depends on the path alone.
#[verifier::external_body]
pub(crate) fn parent(path: &str) -> (r: Option<String>)
    ensures
        r.deep_view() == parent_of(path@),
{
    Path::new(path).parent().map(|p| p.to_string_lossy().into_owned())
}

/// `Path::join`. The result depends on the two paths alone.
#[verifier::external_body]
pub(crate) fn join(base: &str, rest: &str) -> (r: String)
    ensures
        r@ == joined_path(base@, rest@),
{
    Path::new(base).join(rest).to_string_lossy().into_owned()
}

/// `Path::is_absolute`. The result depends on the path alone.
#[verifier::external_body]
pub(crate) fn is_absolute(path: &str) -> (r: bool)
    ensures
        r == path_is_absolute(path@),
{
    Path::new(path).is_absolute()
}

/// `Path::components`, each component as a `PathPart`. The result
/// depends on the path alone.
#[verifier::external_body]
pub(crate) fn components(path: &str) -> (r: Vec<PathPart>)
    ensures
        r.deep_view() == path_parts(path@),
{
    Path::new(path).components().map(|c| match c {
        Component::Prefix(_) => PathPart::Prefix,
        Component::RootDir => PathPart::RootDir,
        Component::CurDir => PathPart::CurDir,
        Component::ParentDir => PathPart::ParentDir,
        Component::Normal(s) => match s.to_str() {
            Some(text) => PathPart::Normal(text.to_owned()),
            None => PathPart::NotUnicode(s.to_string_lossy().into_owned()),
        },
    }).collect()
}

/// The `Debug` form of a path, as `format!("{:?}", ..)` gives it. The
/// result depends on the path alone.
#[verifier::external_body]
pub(crate) fn debug_text(path: &str) -> (r: String)
    ensures
        r@ == path_debug_text(path@),
{
    format!("{:?}", Path::new(path))
}

/// `Path::starts_with`. The result depends on the two paths alone.
#[verifier::external_body]
pub(crate) fn starts_with(path: &str, base: &str) -> (r: bool)
    ensures
        r == path_starts_with(path@, base@),
{
    Path::new(path).starts_with(Path::new(base))
}

} // verus!
