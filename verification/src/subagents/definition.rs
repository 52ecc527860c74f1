//! A sub-agent as its definition file describes it.

use crate::copying::{copy_opt_string, copy_strings};
use crate::text::{
    blank, char_is_ascii_alnum, char_lower, chars_of, is_ascii_alnum, is_blank, lower_char,
    string_of,
};
use vstd::prelude::*;

verus! {

/// Where a definition was found.
#[derive(Clone, Copy, Debug, PartialEq, Eq, Structural)]
pub enum SubagentScope {
    Project,
    User,
}

#[derive(Debug, PartialEq, Eq)]
pub struct SubagentDefinition {
    pub raw_name: String,
    pub name: String,
    pub description: String,
    pub tools: Vec<String>,
    pub model: Option<String>,
    pub instructions: String,
    pub scope: SubagentScope,
    pub source_path: String,
    pub validation_errors: Vec<String>,
}

pub struct SubagentDefinitionView {
    pub raw_name: Seq<char>,
    pub name: Seq<char>,
    pub description: Seq<char>,
    pub tools: Seq<Seq<char>>,
    pub model: Option<Seq<char>>,
    pub instructions: Seq<char>,
    pub scope: SubagentScope,
    pub source_path: Seq<char>,
    pub validation_errors: Seq<Seq<char>>,
}

impl DeepView for SubagentDefinition {
    type V = SubagentDefinitionView;

    open spec fn deep_view(&self) -> SubagentDefinitionView {
        SubagentDefinitionView {
            raw_name: self.raw_name@,
            name: self.name@,
            description: self.description@,
            tools: self.tools.deep_view(),
            model: self.model.deep_view(),
            instructions: self.instructions@,
            scope: self.scope,
            source_path: self.source_path@,
            validation_errors: self.validation_errors.deep_view(),
        }
    }
}

impl Clone for SubagentDefinition {
    fn clone(&self) -> (r: Self)
        ensures
            r.deep_view() == self.deep_view(),
    {
        SubagentDefinition {
            raw_name: self.raw_name.clone(),
            name: self.name.clone(),
            description: self.description.clone(),
            tools: copy_strings(&self.tools),
            model: copy_opt_string(&self.model),
            instructions: self.instructions.clone(),
            scope: self.scope,
            source_path: self.source_path.clone(),
            validation_errors: copy_strings(&self.validation_errors),
        }
    }
}

#[derive(Debug, PartialEq, Eq)]
pub struct SubagentValidationError {
    pub message: String,
}

impl SubagentValidationError {
    pub fn new(message: &str) -> (r: Self)
        ensures
            r.message@ == message@,
    {
        SubagentValidationError { message: String::from_str(message) }
    }
}

impl Clone for SubagentValidationError {
    fn clone(&self) -> (r: Self)
        ensures
            r.message@ == self.message@,
    {
        SubagentValidationError { message: self.message.clone() }
    }
}

/// One step of name normalisation: a letter or digit is kept in lower
/// case; anything else becomes a hyphen, unless the name so far is empty
/// or already ends in one.
pub open spec fn normalize_step(acc: Seq<char>, c: char) -> Seq<char> {
    let l = lower_char(c);
    if is_ascii_alnum(l) {
        acc.push(l)
    } else if acc.len() > 0 && acc.last() != '-' {
        acc.push('-')
    } else {
        acc
    }
}

/// The name after every character of `raw` has been taken in.
pub open spec fn normalize_fold(raw: Seq<char>) -> Seq<char>
    decreases raw.len(),
{
    if raw.len() == 0 {
        Seq::empty()
    } else {
        normalize_step(normalize_fold(raw.drop_last()), raw.last())
    }
}

/// `s` without trailing hyphens.
pub open spec fn strip_hyphens(s: Seq<char>) -> Seq<char>
    decreases s.len(),
{
    if s.len() > 0 && s.last() == '-' {
        strip_hyphens(s.drop_last())
    } else {
        s
    }
}

/// The normalised form of a name: lower case, each run of characters
/// other than ASCII letters and digits collapsed into one hyphen, no
/// hyphen at either end.
pub open spec fn normalized_name(raw: Seq<char>) -> Seq<char> {
    strip_hyphens(normalize_fold(raw))
}

/// The errors that a new definition starts with.
pub open spec fn initial_errors(raw_name: Seq<char>, description: Seq<char>) -> Seq<Seq<char>> {
    let e1 = if is_blank(raw_name) {
        seq!["name is required"@]
    } else {
        Seq::<Seq<char>>::empty()
    };
    let e2 = if is_blank(description) {
        seq!["description is required"@]
    } else {
        Seq::<Seq<char>>::empty()
    };
    let e3 = if normalized_name(raw_name).len() == 0 {
        seq!["normalized name is empty"@]
    } else {
        Seq::<Seq<char>>::empty()
    };
    e1 + e2 + e3
}

impl SubagentDefinition {
    /// A definition with the given name and description, no tools, no
    /// model and no instructions. It is marked invalid where the name or
    /// the description is blank or the name normalises to nothing.
    pub fn new(raw_name: &str, description: &str, scope: SubagentScope, source_path: &str) -> (r:
        Self)
        ensures
            r.deep_view() == (SubagentDefinitionView {
                raw_name: raw_name@,
                name: normalized_name(raw_name@),
                description: description@,
                tools: Seq::empty(),
                model: None,
                instructions: Seq::empty(),
                scope,
                source_path: source_path@,
                validation_errors: initial_errors(raw_name@, description@),
            }),
    {
        let name = Self::normalize_name(raw_name);
        let mut validation_errors: Vec<String> = Vec::new();
        let ghost e0 = validation_errors.deep_view();
        assert(e0 =~= Seq::<Seq<char>>::empty());
        if blank(raw_name) {
            validation_errors.push(String::from_str("name is required"));
        }
        let ghost e1 = validation_errors.deep_view();
        assert(e1 =~= if is_blank(raw_name@) {
            seq!["name is required"@]
        } else {
            Seq::<Seq<char>>::empty()
        });
        if blank(description) {
            validation_errors.push(String::from_str("description is required"));
        }
        let ghost e2 = validation_errors.deep_view();
        assert(e2 =~= e1 + (if is_blank(description@) {
            seq!["description is required"@]
        } else {
            Seq::<Seq<char>>::empty()
        }));
        if name.as_str().is_empty() {
            validation_errors.push(String::from_str("normalized name is empty"));
        }
        assert(validation_errors.deep_view() =~= initial_errors(raw_name@, description@));
        let tools: Vec<String> = Vec::new();
        assert(tools.deep_view() =~= Seq::<Seq<char>>::empty());
        SubagentDefinition {
            raw_name: String::from_str(raw_name),
            name,
            description: String::from_str(description),
            tools,
            model: None,
            instructions: String::new(),
            scope,
            source_path: String::from_str(source_path),
            validation_errors,
        }
    }

    pub fn with_tools(self, tools: Vec<String>) -> (r: Self)
        ensures
            r.deep_view() == (SubagentDefinitionView {
                tools: tools.deep_view(),
                ..self.deep_view()
            }),
    {
        let mut r = self;
        r.tools = tools;
        r
    }

    pub fn with_model(self, model: Option<String>) -> (r: Self)
        ensures
            r.deep_view() == (SubagentDefinitionView {
                model: model.deep_view(),
                ..self.deep_view()
            }),
    {
        let mut r = self;
        r.model = model;
        r
    }

    /// Records one more validation error.
    pub fn add_validation_error(&mut self, message: &str)
        ensures
            final(self).deep_view() == (SubagentDefinitionView {
                validation_errors: old(self).deep_view().validation_errors.push(message@),
                ..old(self).deep_view()
            }),
    {
        self.validation_errors.push(String::from_str(message));
        proof {
            assert(self.validation_errors.deep_view() =~= old(self).validation_errors.deep_view().push(message@));
        }
    }

    pub fn has_errors(&self) -> (r: bool)
        ensures
            r == (self.deep_view().validation_errors.len() > 0),
    {
        self.validation_errors.len() > 0
    }

    pub fn is_valid(&self) -> (r: bool)
        ensures
            r == (self.deep_view().validation_errors.len() == 0),
    {
        self.validation_errors.len() == 0
    }

    /// The normalised form of `raw`.
    pub fn normalize_name(raw: &str) -> (r: String)
        ensures
            r@ == normalized_name(raw@),
    {
        let chars = chars_of(raw);
        let mut acc: Vec<char> = Vec::new();
        let mut i: usize = 0;
        proof {
            assert(chars@.take(0) =~= Seq::<char>::empty());
        }
        while i < chars.len()
            invariant
                i <= chars.len(),
                acc@ == normalize_fold(chars@.take(i as int)),
            decreases chars.len() - i,
        {
            proof {
                assert(chars@.take(i + 1).drop_last() =~= chars@.take(i as int));
            }
            let lower = char_lower(chars[i]);
            if char_is_ascii_alnum(lower) {
                acc.push(lower);
            } else if acc.len() > 0 && acc[acc.len() - 1] != '-' {
                acc.push('-');
            }
            i += 1;
        }
        proof {
            assert(chars@.take(chars.len() as int) =~= chars@);
        }
        let ghost folded = acc@;
        while acc.len() > 0 && acc[acc.len() - 1] == '-'
            invariant
                strip_hyphens(folded) == strip_hyphens(acc@),
            decreases acc.len(),
        {
            let ghost before = acc@;
            acc.pop();
            proof {
                assert(acc@ =~= before.drop_last());
            }
        }
        string_of(&acc)
    }
}

} // verus!
