//! The result of evaluating one policy against one request.

use crate::compiler::compiled_policy::matches_any;
use crate::compiler::compiler::{covers_all_resources, regex_sources};
use crate::policy::policy::{CompletePolicy, PartialPolicy, PartialPolicyView};
use crate::utils::text::clone_strings;
use crate::policy::{PolicyEffect, PolicyVersion};
use vstd::prelude::*;

verus! {

/// Whether both axes of a policy are resolved.
#[derive(Copy, Clone, Debug, PartialEq, Eq, Structural)]
pub enum ResultType {
    Partial,
    Full,
}

/// Whether a policy applies to a request.
#[derive(Copy, Clone, Debug, PartialEq, Eq, Structural)]
pub enum ResultOutcome {
    Match,
    NotMatch,
}

/// What a match result says: how far the evaluation went, whether the policy
/// applies, what is left of the policy, and how each axis was resolved, if
/// it was.
pub struct MatchResultView {
    pub result_type: ResultType,
    pub outcome: ResultOutcome,
    pub partial: PartialPolicyView,
    pub action_matches: Option<bool>,
    pub resource_matches: Option<bool>,
}

/// The partial policy with this effect that leaves no axis open.
pub open spec fn settled(effect: PolicyEffect) -> PartialPolicyView {
    PartialPolicyView { version: PolicyVersion::Version1, effect, actions: None, resources: None }
}

/// What is left of a policy when its axes are resolved as given: each axis
/// that is not resolved keeps the policy's patterns.
pub open spec fn remainder(
    effect: PolicyEffect,
    actions: Seq<Seq<char>>,
    resources: Seq<Seq<char>>,
    action_matches: Option<bool>,
    resource_matches: Option<bool>,
) -> PartialPolicyView {
    PartialPolicyView {
        version: PolicyVersion::Version1,
        effect,
        actions: if action_matches is Some {
            None
        } else {
            Some(actions)
        },
        resources: if resource_matches is Some {
            None
        } else {
            Some(resources)
        },
    }
}

impl MatchResultView {
    /// The result before any axis is resolved.
    pub open spec fn unresolved() -> MatchResultView {
        MatchResultView {
            result_type: ResultType::Partial,
            outcome: ResultOutcome::NotMatch,
            partial: PartialPolicyView::default(),
            action_matches: None,
            resource_matches: None,
        }
    }

    /// The result once the axes of a policy are resolved as given.
    ///
    /// An axis resolved negatively settles the result at once: the policy
    /// does not apply, whatever the other axis says or would say. Otherwise
    /// the policy applies; fully when both axes are resolved, and in part,
    /// with the open axis left in the partial policy, when one is.
    pub open spec fn resolved(
        effect: PolicyEffect,
        actions: Seq<Seq<char>>,
        resources: Seq<Seq<char>>,
        action_matches: Option<bool>,
        resource_matches: Option<bool>,
    ) -> MatchResultView {
        if action_matches == Some(false) || resource_matches == Some(false) {
            MatchResultView {
                result_type: ResultType::Full,
                outcome: ResultOutcome::NotMatch,
                partial: settled(effect),
                action_matches,
                resource_matches,
            }
        } else if action_matches is Some && resource_matches is Some {
            MatchResultView {
                result_type: ResultType::Full,
                outcome: ResultOutcome::Match,
                partial: settled(effect),
                action_matches,
                resource_matches,
            }
        } else if action_matches is None && resource_matches is None {
            Self::unresolved()
        } else {
            MatchResultView {
                result_type: ResultType::Partial,
                outcome: ResultOutcome::Match,
                partial: remainder(effect, actions, resources, action_matches, resource_matches),
                action_matches,
                resource_matches,
            }
        }
    }

    /// The result after recomputing it for a policy, from the axes as they
    /// are resolved so far.
    pub open spec fn updated(
        self,
        effect: PolicyEffect,
        actions: Seq<Seq<char>>,
        resources: Seq<Seq<char>>,
    ) -> MatchResultView {
        if self.action_matches == Some(false) || self.resource_matches == Some(false) {
            MatchResultView {
                result_type: ResultType::Full,
                outcome: ResultOutcome::NotMatch,
                partial: settled(effect),
                ..self
            }
        } else {
            let outcome = if self.action_matches == Some(true)
                || self.resource_matches == Some(true) {
                ResultOutcome::Match
            } else {
                self.outcome
            };
            if self.action_matches is Some && self.resource_matches is Some {
                MatchResultView {
                    result_type: ResultType::Full,
                    outcome,
                    partial: settled(effect),
                    ..self
                }
            } else {
                MatchResultView {
                    result_type: ResultType::Partial,
                    outcome,
                    partial: remainder(
                        effect,
                        actions,
                        resources,
                        self.action_matches,
                        self.resource_matches,
                    ),
                    ..self
                }
            }
        }
    }
}

/// How the action axis of a policy with these action patterns is resolved:
/// not at all without an action, and otherwise by whether any pattern
/// matches it.
pub open spec fn action_axis(actions: Seq<Seq<char>>, action: Option<Seq<char>>) -> Option<bool> {
    match action {
        Some(a) => Some(matches_any(regex_sources(actions), a)),
        None => None,
    }
}

/// How the resource axis of a policy with these resource patterns is
/// resolved: positively when they cover every resource, whether a resource
/// is given or not; else not at all without a resource, and otherwise by
/// whether any pattern matches it.
pub open spec fn resource_axis(
    resources: Seq<Seq<char>>,
    resource: Option<Seq<char>>,
) -> Option<bool> {
    if covers_all_resources(resources) {
        Some(true)
    } else {
        match resource {
            Some(r) => Some(matches_any(regex_sources(resources), r)),
            None => None,
        }
    }
}

/// The result of evaluating a policy with this effect and these patterns
/// against a request.
pub open spec fn evaluate(
    effect: PolicyEffect,
    actions: Seq<Seq<char>>,
    resources: Seq<Seq<char>>,
    action: Option<Seq<char>>,
    resource: Option<Seq<char>>,
) -> MatchResultView {
    MatchResultView::resolved(
        effect,
        actions,
        resources,
        action_axis(actions, action),
        resource_axis(resources, resource),
    )
}

/// Recomputing forgets what the result was before: once an axis is resolved,
/// the recomputed result is that of the axes as they are resolved now,
/// whatever the type and the outcome were.
pub proof fn lemma_updated_is_resolved(
    before: MatchResultView,
    effect: PolicyEffect,
    actions: Seq<Seq<char>>,
    resources: Seq<Seq<char>>,
)
    requires
        before.action_matches is Some || before.resource_matches is Some,
    ensures
        before.updated(effect, actions, resources) == MatchResultView::resolved(
            effect,
            actions,
            resources,
            before.action_matches,
            before.resource_matches,
        ),
{
    assert(before.action_matches matches Some(matched) ==> before.action_matches == Some(true)
        || before.action_matches == Some(false));
    assert(before.resource_matches matches Some(matched) ==> before.resource_matches == Some(true)
        || before.resource_matches == Some(false));
}

/// Short circuit on the action: an action that no pattern of the policy
/// matches settles the result, whether a resource is given or not.
pub proof fn lemma_failed_action_settles(
    effect: PolicyEffect,
    actions: Seq<Seq<char>>,
    resources: Seq<Seq<char>>,
    action: Seq<char>,
    resource: Option<Seq<char>>,
)
    requires
        !matches_any(regex_sources(actions), action),
    ensures
        evaluate(effect, actions, resources, Some(action), resource).result_type
            == ResultType::Full,
        evaluate(effect, actions, resources, Some(action), resource).outcome
            == ResultOutcome::NotMatch,
{
}

/// Short circuit on the resource: a resource that no pattern of the policy
/// matches, when the policy does not cover every resource, settles the
/// result, whether an action is given or not.
pub proof fn lemma_failed_resource_settles(
    effect: PolicyEffect,
    actions: Seq<Seq<char>>,
    resources: Seq<Seq<char>>,
    action: Option<Seq<char>>,
    resource: Seq<char>,
)
    requires
        !covers_all_resources(resources),
        !matches_any(regex_sources(resources), resource),
    ensures
        evaluate(effect, actions, resources, action, Some(resource)).result_type
            == ResultType::Full,
        evaluate(effect, actions, resources, action, Some(resource)).outcome
            == ResultOutcome::NotMatch,
{
}

/// Short circuit, on the axes themselves: an axis resolved negatively
/// settles the result, however the other axis is resolved, if it is at all.
pub proof fn lemma_failed_axis_settles(
    effect: PolicyEffect,
    actions: Seq<Seq<char>>,
    resources: Seq<Seq<char>>,
    action_matches: Option<bool>,
    resource_matches: Option<bool>,
)
    requires
        action_matches == Some(false) || resource_matches == Some(false),
    ensures
        MatchResultView::resolved(
            effect,
            actions,
            resources,
            action_matches,
            resource_matches,
        ).result_type == ResultType::Full,
        MatchResultView::resolved(
            effect,
            actions,
            resources,
            action_matches,
            resource_matches,
        ).outcome == ResultOutcome::NotMatch,
{
}

/// All resources: a policy whose resource patterns cover every resource has
/// its resource axis resolved positively for every request, with or without
/// a resource; so the action alone decides whether it applies.
pub proof fn lemma_all_resources(
    effect: PolicyEffect,
    actions: Seq<Seq<char>>,
    resources: Seq<Seq<char>>,
    action: Option<Seq<char>>,
    resource: Option<Seq<char>>,
)
    requires
        covers_all_resources(resources),
    ensures
        evaluate(effect, actions, resources, action, resource).resource_matches == Some(true),
        evaluate(effect, actions, resources, action, resource).outcome == if action_axis(
            actions,
            action,
        ) == Some(false) {
            ResultOutcome::NotMatch
        } else {
            ResultOutcome::Match
        },
        evaluate(effect, actions, resources, action, resource).result_type == if action is Some {
            ResultType::Full
        } else {
            ResultType::Partial
        },
{
}

/// The result of evaluating one policy against one request, built up axis by
/// axis.
pub struct MatchResult {
    pub result_type: ResultType,
    pub outcome: ResultOutcome,
    partial: PartialPolicy,
    action_matches: Option<bool>,
    resource_matches: Option<bool>,
}

impl View for MatchResult {
    type V = MatchResultView;

    closed spec fn view(&self) -> MatchResultView {
        MatchResultView {
            result_type: self.result_type,
            outcome: self.outcome,
            partial: self.partial@,
            action_matches: self.action_matches,
            resource_matches: self.resource_matches,
        }
    }
}

impl Clone for MatchResult {
    fn clone(&self) -> (copy: Self)
        ensures
            copy@ == self@,
    {
        MatchResult {
            result_type: self.result_type,
            outcome: self.outcome,
            partial: self.partial.clone(),
            action_matches: self.action_matches,
            resource_matches: self.resource_matches,
        }
    }
}

impl MatchResult {
    /// The result before any axis is resolved.
    pub fn new() -> (result: MatchResult)
        ensures
            result@ == MatchResultView::unresolved(),
    {
        MatchResult {
            result_type: ResultType::Partial,
            outcome: ResultOutcome::NotMatch,
            partial: PartialPolicy::default(),
            action_matches: None,
            resource_matches: None,
        }
    }

    /// Records how the action axis is resolved.
    pub fn update_action(&mut self, result: bool)
        ensures
            final(self)@ == (MatchResultView { action_matches: Some(result), ..old(self)@ }),
    {
        self.action_matches = Option::Some(result);
    }

    /// Records how the resource axis is resolved.
    pub fn update_resource(&mut self, result: bool)
        ensures
            final(self)@ == (MatchResultView { resource_matches: Some(result), ..old(self)@ }),
    {
        self.resource_matches = Option::Some(result);
    }

    /// What is left of the policy.
    pub fn get_partial(&self) -> (partial: &PartialPolicy)
        ensures
            partial@ == self@.partial,
    {
        &self.partial
    }

    /// Whether the policy applies.
    pub fn is_match(&self) -> (b: bool)
        ensures
            b == (self@.outcome == ResultOutcome::Match),
    {
        self.outcome == ResultOutcome::Match
    }

    /// Whether both axes are resolved, or one is resolved negatively.
    pub fn is_full(&self) -> (b: bool)
        ensures
            b == (self@.result_type == ResultType::Full),
    {
        self.result_type == ResultType::Full
    }

    /// Recomputes the result for `policy` from the axes resolved so far.
    pub fn _update(&mut self, policy: &CompletePolicy)
        ensures
            final(self)@ == old(self)@.updated(policy@.effect, policy@.actions, policy@.resources),
    {
        self.partial.reset();
        self.partial.effect = policy.effect();

        if (self.action_matches.is_some() && !self.action_matches.unwrap())
            || (self.resource_matches.is_some() && !self.resource_matches.unwrap())
        {
            self.result_type = ResultType::Full;
            self.outcome = ResultOutcome::NotMatch;

            return;
        }
        if self.action_matches.unwrap_or(false) || self.resource_matches.unwrap_or(false) {
            self.outcome = ResultOutcome::Match;
        }
        if self.action_matches.is_some() && self.resource_matches.is_some() {
            self.result_type = ResultType::Full;
        } else {
            self.result_type = ResultType::Partial;
            self.partial = PartialPolicy {
                version: PolicyVersion::Version1,
                effect: self.partial.effect,
                actions: if self.action_matches.is_some() {
                    None
                } else {
                    Option::Some(clone_strings(policy.actions()))
                },
                resources: if self.resource_matches.is_some() {
                    None
                } else {
                    Option::Some(clone_strings(policy.resources()))
                },
            }
        }
    }
}

} // verus!
