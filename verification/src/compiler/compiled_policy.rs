//! The matchers of one policy.

use crate::utils::matcher::{regex_is_match, Matcher};
use vstd::prelude::*;

verus! {

/// Whether any of the regular expressions `patterns` matches `text`.
pub open spec fn matches_any(patterns: Seq<Seq<char>>, text: Seq<char>) -> bool {
    exists|i: int| 0 <= i < patterns.len() && regex_is_match(#[trigger] patterns[i], text)
}

/// The regular expressions of a list of matchers, in order.
pub open spec fn sources(matchers: Seq<Matcher>) -> Seq<Seq<char>> {
    matchers.map_values(|m: Matcher| m@)
}

/// The matchers for the actions and the resources of one policy.
pub struct CompiledPolicy {
    actions: Vec<Matcher>,
    resources: Vec<Matcher>,
    /// Set when the policy applies to every resource; the resource matchers
    /// are not consulted then.
    all_resources: bool,
}

impl CompiledPolicy {
    /// The regular expressions of the action matchers.
    pub closed spec fn action_patterns(&self) -> Seq<Seq<char>> {
        sources(self.actions@)
    }

    /// The regular expressions of the resource matchers.
    pub closed spec fn resource_patterns(&self) -> Seq<Seq<char>> {
        sources(self.resources@)
    }

    /// Whether the policy applies to every resource.
    pub closed spec fn covers_all(&self) -> bool {
        self.all_resources
    }

    /// Creates a new compiled policy. Without resource matchers it applies
    /// to every resource.
    pub fn new(actions: Vec<Matcher>, resources: Vec<Matcher>) -> (compiled: CompiledPolicy)
        ensures
            compiled.action_patterns() == sources(actions@),
            compiled.resource_patterns() == sources(resources@),
            compiled.covers_all() == (resources@.len() == 0),
    {
        let all_resources = resources.is_empty();

        CompiledPolicy { actions, resources, all_resources }
    }

    /// Whether the policy applies to every resource.
    pub fn all_resources(&self) -> (all: bool)
        ensures
            all == self.covers_all(),
    {
        self.all_resources
    }

    /// Whether any action matcher matches `action`.
    pub fn match_action(&self, action: &str) -> (matched: bool)
        ensures
            matched == matches_any(self.action_patterns(), action@),
    {
        any_matches(&self.actions, action)
    }

    /// Whether the resource axis is decided for `resource`, and how: always
    /// positively for a policy on all resources, not at all without a
    /// resource, and otherwise by the resource matchers.
    pub fn match_resource(&self, resource: Option<&str>) -> (matched: Option<bool>)
        ensures
            matched == self.resource_verdict(
                match resource {
                    Some(r) => Some(r@),
                    None => None,
                },
            ),
    {
        if self.all_resources {
            return Some(true);
        }
        match resource {
            None => None,
            Some(r) => Some(any_matches(&self.resources, r)),
        }
    }

    /// What `match_resource` answers for a resource.
    pub open spec fn resource_verdict(&self, resource: Option<Seq<char>>) -> Option<bool> {
        if self.covers_all() {
            Some(true)
        } else {
            match resource {
                None => None,
                Some(r) => Some(matches_any(self.resource_patterns(), r)),
            }
        }
    }
}

impl Clone for CompiledPolicy {
    /// A copy with matchers of the same expressions.
    fn clone(&self) -> (copy: Self)
        ensures
            copy.action_patterns() == self.action_patterns(),
            copy.resource_patterns() == self.resource_patterns(),
            copy.covers_all() == self.covers_all(),
    {
        CompiledPolicy {
            actions: copy_matchers(&self.actions),
            resources: copy_matchers(&self.resources),
            all_resources: self.all_resources,
        }
    }
}

/// Copies of the matchers, in order.
fn copy_matchers(matchers: &Vec<Matcher>) -> (copies: Vec<Matcher>)
    ensures
        sources(copies@) == sources(matchers@),
{
    let mut copies: Vec<Matcher> = Vec::new();
    let mut i: usize = 0;
    while i < matchers.len()
        invariant
            i <= matchers.len(),
            copies@.len() == i,
            forall|j: int| 0 <= j < i ==> (#[trigger] copies@[j])@ == matchers@[j]@,
        decreases matchers.len() - i,
    {
        copies.push(matchers[i].duplicate());
        i += 1;
    }
    copies
}

/// Tries the matchers in order and stops at the first that matches.
fn any_matches(matchers: &Vec<Matcher>, text: &str) -> (matched: bool)
    ensures
        matched == matches_any(sources(matchers@), text@),
{
    let mut i: usize = 0;
    while i < matchers.len()
        invariant
            i <= matchers.len(),
            forall|j: int| 0 <= j < i ==> !regex_is_match(#[trigger] sources(matchers@)[j], text@),
        decreases matchers.len() - i,
    {
        if matchers[i].is_match(text) {
            assert(regex_is_match(sources(matchers@)[i as int], text@));
            return true;
        }
        i += 1;
    }
    false
}

} // verus!
