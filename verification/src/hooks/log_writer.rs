//! The audit log: one JSON object per line. Writing to the file is
//! done by the caller; what is written is decided here.

use crate::text::{push_str, string_of};
use vstd::prelude::*;

verus! {

#[derive(Debug, PartialEq, Eq)]
pub enum HookLogWriterError {
    Serialize(String),
    Io(String),
}

pub open spec fn log_error_text(e: HookLogWriterError) -> Seq<char> {
    match e {
        HookLogWriterError::Serialize(m) => "failed to serialize hook record: "@ + m@,
        HookLogWriterError::Io(m) => "failed to write hook execution log: "@ + m@,
    }
}

impl HookLogWriterError {
    /// The text of the error.
    pub fn message(&self) -> (r: String)
        ensures
            r@ == log_error_text(*self),
    {
        let mut out: Vec<char> = Vec::new();
        match self {
            HookLogWriterError::Serialize(m) => {
                push_str(&mut out, "failed to serialize hook record: ");
                push_str(&mut out, m.as_str());
            },
            HookLogWriterError::Io(m) => {
                push_str(&mut out, "failed to write hook execution log: ");
                push_str(&mut out, m.as_str());
            },
        }
        string_of(&out)
    }
}

#[derive(Debug, PartialEq, Eq)]
pub struct HookLogWriter {
    path: String,
}

impl Clone for HookLogWriter {
    fn clone(&self) -> (r: Self)
        ensures
            r.location() == self.location(),
    {
        HookLogWriter { path: self.path.clone() }
    }
}

impl HookLogWriter {
    /// The path of the log file.
    pub closed spec fn location(&self) -> Seq<char> {
        self.path@
    }

    /// A writer that appends to the file at `path`.
    pub fn new(path: &str) -> (r: Self)
        ensures
            r.location() == path@,
    {
        HookLogWriter { path: String::from_str(path) }
    }

    pub fn path(&self) -> (r: &String)
        ensures
            r@ == self.location(),
    {
        &self.path
    }

    /// The directory to create before the file is opened: the parent
    /// of the path as `std::path` gives it, unless that is empty.
    pub fn directory_to_create(&self) -> (r: Option<String>)
        ensures
            r.deep_view() == kept_directory(crate::paths::parent_of(self.location())),
    {
        let parent = crate::paths::parent(self.path.as_str());
        directory_from(parent)
    }

    /// The line to append for a record, given the record as JSON text:
    /// that text, ended by a line feed.
    pub fn line_for(&self, json: &str) -> (r: String)
        ensures
            r@ == json@ + "\n"@,
    {
        let mut out: Vec<char> = Vec::new();
        push_str(&mut out, json);
        push_str(&mut out, "\n");
        proof {
            assert(out@ =~= json@ + "\n"@);
        }
        string_of(&out)
    }
}

/// The directory to create for a log file, given the parent of its
/// path: the parent, unless the path has none or an empty one.
pub open spec fn kept_directory(parent: Option<Seq<char>>) -> Option<Seq<char>> {
    match parent {
        Some(p) => if p.len() == 0 {
            None
        } else {
            Some(p)
        },
        None => None,
    }
}

/// The directory to create for a log file whose path has the parent
/// given.
pub fn directory_from(parent: Option<String>) -> (r: Option<String>)
    ensures
        r.deep_view() == kept_directory(parent.deep_view()),
{
    match parent {
        Some(p) => if p.as_str().is_empty() {
            None
        } else {
            Some(p)
        },
        None => None,
    }
}

} // verus!
