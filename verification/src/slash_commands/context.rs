//! The arguments of one invocation.

use crate::copying::copy_strings;
use crate::lines::{join, joined, string_texts};
use vstd::prelude::*;

verus! {

#[derive(Debug, PartialEq, Eq)]
pub struct InterpolationContext {
    arguments: Vec<String>,
    concatenated: String,
}

impl DeepView for InterpolationContext {
    type V = Seq<Seq<char>>;

    /// The arguments.
    closed spec fn deep_view(&self) -> Seq<Seq<char>> {
        self.arguments.deep_view()
    }
}

/// Argument number `index`, counted from 1.
pub open spec fn argument_at(arguments: Seq<Seq<char>>, index: nat) -> Option<Seq<char>> {
    if index == 0 || index > arguments.len() {
        None
    } else {
        Some(arguments[index - 1])
    }
}

/// All arguments on one line, separated by blanks.
pub open spec fn all_on_one_line(arguments: Seq<Seq<char>>) -> Seq<char> {
    joined(arguments, " "@)
}

impl InterpolationContext {
    #[verifier::type_invariant]
    spec fn consistent(self) -> bool {
        self.concatenated@ == joined(self.arguments.deep_view(), " "@)
    }

    pub fn new(arguments: Vec<String>) -> (r: Self)
        ensures
            r.deep_view() == arguments.deep_view(),
    {
        let concatenated = join(&arguments, " ");
        proof {
            assert(string_texts(arguments@) =~= arguments.deep_view());
        }
        InterpolationContext { arguments, concatenated }
    }

    /// Argument number `index`, counted from 1.
    pub fn positional(&self, index: usize) -> (r: Option<&String>)
        ensures
            r.deep_view() == argument_at(self.deep_view(), index as nat),
    {
        if index == 0 || index > self.arguments.len() {
            None
        } else {
            Some(&self.arguments[index - 1])
        }
    }

    /// All arguments on one line.
    pub fn all_arguments(&self) -> (r: &String)
        ensures
            r@ == all_on_one_line(self.deep_view()),
    {
        proof {
            use_type_invariant(self);
        }
        &self.concatenated
    }

    pub fn arguments(&self) -> (r: &Vec<String>)
        ensures
            r.deep_view() == self.deep_view(),
    {
        &self.arguments
    }
}

impl Clone for InterpolationContext {
    fn clone(&self) -> (r: Self)
        ensures
            r.deep_view() == self.deep_view(),
    {
        InterpolationContext::new(copy_strings(&self.arguments))
    }
}

impl Default for InterpolationContext {
    fn default() -> (r: Self)
        ensures
            r.deep_view() == Seq::<Seq<char>>::empty(),
    {
        let arguments: Vec<String> = Vec::new();
        proof {
            assert(arguments.deep_view() =~= Seq::<Seq<char>>::empty());
        }
        InterpolationContext::new(arguments)
    }
}

} // verus!
