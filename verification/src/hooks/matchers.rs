//! Predicates that select the events a hook applies to.

use crate::copying::copy_strings;
use crate::text::same_text;
use vstd::prelude::*;

verus! {

#[derive(Debug, PartialEq, Eq)]
pub enum HookMatcher {
    Exact { value: String },
    Glob { value: String },
    Regex { value: String },
}

pub enum HookMatcherView {
    Exact { value: Seq<char> },
    Glob { value: Seq<char> },
    Regex { value: Seq<char> },
}

impl DeepView for HookMatcher {
    type V = HookMatcherView;

    open spec fn deep_view(&self) -> HookMatcherView {
        match self {
            HookMatcher::Exact { value } => HookMatcherView::Exact { value: value@ },
            HookMatcher::Glob { value } => HookMatcherView::Glob { value: value@ },
            HookMatcher::Regex { value } => HookMatcherView::Regex { value: value@ },
        }
    }
}

impl Clone for HookMatcher {
    fn clone(&self) -> (r: Self)
        ensures
            r.deep_view() == self.deep_view(),
    {
        match self {
            HookMatcher::Exact { value } => HookMatcher::Exact { value: value.clone() },
            HookMatcher::Glob { value } => HookMatcher::Glob { value: value.clone() },
            HookMatcher::Regex { value } => HookMatcher::Regex { value: value.clone() },
        }
    }
}

/// The tag under which a matcher's kind is written.
pub open spec fn tag_of(m: HookMatcherView) -> Seq<char> {
    match m {
        HookMatcherView::Exact { .. } => "exact"@,
        HookMatcherView::Glob { .. } => "glob"@,
        HookMatcherView::Regex { .. } => "regex"@,
    }
}

pub open spec fn value_of(m: HookMatcherView) -> Seq<char> {
    match m {
        HookMatcherView::Exact { value } => value,
        HookMatcherView::Glob { value } => value,
        HookMatcherView::Regex { value } => value,
    }
}

/// The matcher that a tag and a value stand for.
pub open spec fn tagged(tag: Seq<char>, value: Seq<char>) -> Option<HookMatcherView> {
    if tag == "exact"@ {
        Some(HookMatcherView::Exact { value })
    } else if tag == "glob"@ {
        Some(HookMatcherView::Glob { value })
    } else if tag == "regex"@ {
        Some(HookMatcherView::Regex { value })
    } else {
        None
    }
}

impl HookMatcher {
    /// The tag of the matcher's kind: `exact`, `glob` or `regex`.
    pub fn type_tag(&self) -> (r: String)
        ensures
            r@ == tag_of(self.deep_view()),
    {
        match self {
            HookMatcher::Exact { .. } => String::from_str("exact"),
            HookMatcher::Glob { .. } => String::from_str("glob"),
            HookMatcher::Regex { .. } => String::from_str("regex"),
        }
    }

    pub fn value(&self) -> (r: &String)
        ensures
            r@ == value_of(self.deep_view()),
    {
        match self {
            HookMatcher::Exact { value } => value,
            HookMatcher::Glob { value } => value,
            HookMatcher::Regex { value } => value,
        }
    }

    /// The matcher with the given tag and value; `None` for an unknown
    /// tag.
    pub fn from_tagged(tag: &str, value: &str) -> (r: Option<HookMatcher>)
        ensures
            r.deep_view() == tagged(tag@, value@),
    {
        if same_text(tag, "exact") {
            Some(HookMatcher::Exact { value: String::from_str(value) })
        } else if same_text(tag, "glob") {
            Some(HookMatcher::Glob { value: String::from_str(value) })
        } else if same_text(tag, "regex") {
            Some(HookMatcher::Regex { value: String::from_str(value) })
        } else {
            None
        }
    }
}

/// Writing a matcher as its tag and value and reading that back gives
/// the matcher again.
pub proof fn lemma_tagged_round_trip(m: HookMatcherView)
    ensures
        tagged(tag_of(m), value_of(m)) == Some(m),
{
    reveal_strlit("exact");
    reveal_strlit("glob");
    reveal_strlit("regex");
    assert("exact"@ != "glob"@) by {
        assert("exact"@.len() == 5 && "glob"@.len() == 4);
    }
    assert("regex"@ != "exact"@) by {
        assert("regex"@[0] == 'r' && "exact"@[0] == 'e');
    }
    assert("regex"@ != "glob"@) by {
        assert("regex"@.len() == 5 && "glob"@.len() == 4);
    }
}

#[derive(Debug, PartialEq, Eq)]
pub struct HookMatchers {
    pub tool_names: Vec<HookMatcher>,
    pub sources: Vec<HookMatcher>,
    pub paths: Vec<HookMatcher>,
    pub tags: Vec<String>,
}

pub struct HookMatchersView {
    pub tool_names: Seq<HookMatcherView>,
    pub sources: Seq<HookMatcherView>,
    pub paths: Seq<HookMatcherView>,
    pub tags: Seq<Seq<char>>,
}

impl DeepView for HookMatchers {
    type V = HookMatchersView;

    open spec fn deep_view(&self) -> HookMatchersView {
        HookMatchersView {
            tool_names: self.tool_names.deep_view(),
            sources: self.sources.deep_view(),
            paths: self.paths.deep_view(),
            tags: self.tags.deep_view(),
        }
    }
}

/// A copy of `v`.
pub fn copy_matchers(v: &Vec<HookMatcher>) -> (r: Vec<HookMatcher>)
    ensures
        r.deep_view() == v.deep_view(),
{
    let mut out: Vec<HookMatcher> = Vec::new();
    let mut i: usize = 0;
    while i < v.len()
        invariant
            i <= v.len(),
            out@.len() == i,
            forall|j: int| 0 <= j < i ==> (#[trigger] out@[j]).deep_view() == v@[j].deep_view(),
        decreases v.len() - i,
    {
        out.push(v[i].clone());
        i += 1;
    }
    proof {
        assert(out.deep_view() =~= v.deep_view());
    }
    out
}

impl Clone for HookMatchers {
    fn clone(&self) -> (r: Self)
        ensures
            r.deep_view() == self.deep_view(),
    {
        HookMatchers {
            tool_names: copy_matchers(&self.tool_names),
            sources: copy_matchers(&self.sources),
            paths: copy_matchers(&self.paths),
            tags: copy_strings(&self.tags),
        }
    }
}

pub open spec fn no_matchers() -> HookMatchersView {
    HookMatchersView {
        tool_names: Seq::empty(),
        sources: Seq::empty(),
        paths: Seq::empty(),
        tags: Seq::empty(),
    }
}

impl Default for HookMatchers {
    fn default() -> (r: Self)
        ensures
            r.deep_view() == no_matchers(),
    {
        let tool_names: Vec<HookMatcher> = Vec::new();
        let sources: Vec<HookMatcher> = Vec::new();
        let paths: Vec<HookMatcher> = Vec::new();
        let tags: Vec<String> = Vec::new();
        proof {
            assert(tool_names.deep_view() =~= Seq::<HookMatcherView>::empty());
            assert(sources.deep_view() =~= Seq::<HookMatcherView>::empty());
            assert(paths.deep_view() =~= Seq::<HookMatcherView>::empty());
            assert(tags.deep_view() =~= Seq::<Seq<char>>::empty());
        }
        HookMatchers { tool_names, sources, paths, tags }
    }
}

} // verus!
