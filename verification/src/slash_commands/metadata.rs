//! What the front matter of a command file says.

use crate::copying::{copy_opt_string, copy_strings};
use vstd::prelude::*;

verus! {

#[derive(Debug, PartialEq, Eq)]
pub struct FrontmatterMetadata {
    pub description: Option<String>,
    pub argument_hint: Option<String>,
    pub model: Option<String>,
    pub allowed_tools: Option<Vec<String>>,
}

pub struct FrontmatterMetadataView {
    pub description: Option<Seq<char>>,
    pub argument_hint: Option<Seq<char>>,
    pub model: Option<Seq<char>>,
    pub allowed_tools: Option<Seq<Seq<char>>>,
}

impl DeepView for FrontmatterMetadata {
    type V = FrontmatterMetadataView;

    open spec fn deep_view(&self) -> FrontmatterMetadataView {
        FrontmatterMetadataView {
            description: self.description.deep_view(),
            argument_hint: self.argument_hint.deep_view(),
            model: self.model.deep_view(),
            allowed_tools: self.allowed_tools.deep_view(),
        }
    }
}

impl Clone for FrontmatterMetadata {
    fn clone(&self) -> (r: Self)
        ensures
            r.deep_view() == self.deep_view(),
    {
        FrontmatterMetadata {
            description: copy_opt_string(&self.description),
            argument_hint: copy_opt_string(&self.argument_hint),
            model: copy_opt_string(&self.model),
            allowed_tools: match &self.allowed_tools {
                Some(t) => Some(copy_strings(t)),
                None => None,
            },
        }
    }
}

pub open spec fn no_metadata() -> FrontmatterMetadataView {
    FrontmatterMetadataView {
        description: None,
        argument_hint: None,
        model: None,
        allowed_tools: None,
    }
}

impl Default for FrontmatterMetadata {
    fn default() -> (r: Self)
        ensures
            r.deep_view() == no_metadata(),
    {
        FrontmatterMetadata { description: None, argument_hint: None, model: None, allowed_tools: None }
    }
}

} // verus!
