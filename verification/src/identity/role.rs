//! The verdict on a request over the policies linked to a principal.

use crate::policy::allowed_result::{
    partial_views, AllowedOutcome, AllowedResult, AllowedResultView,
};
use crate::policy::match_result::{ResultOutcome, ResultType};
use crate::policy::policy::{
    optional_text, CompletePolicy, MatchablePolicy, PartialPolicy, PartialPolicyView, PolicyView,
};
use crate::policy::policy_set::{listed_views, PolicySet};
use crate::policy::{PolicyEffect, PolicyVersion};
use vstd::prelude::*;
use vstd::seq_lib::{
    lemma_multiset_commutative, to_multiset_build, to_multiset_contains, to_multiset_len,
    to_multiset_remove,
};

verus! {

/// Whether both axes of `policy` are resolved for the request, both
/// positively.
pub open spec fn fully_matches(
    policy: PolicyView,
    action: Option<Seq<char>>,
    resource: Option<Seq<char>>,
) -> bool {
    let result = policy.evaluate(action, resource);
    result.result_type == ResultType::Full && result.outcome == ResultOutcome::Match
}

/// Whether one axis of `policy` is resolved for the request, positively,
/// and the other is open.
pub open spec fn partly_matches(
    policy: PolicyView,
    action: Option<Seq<char>>,
    resource: Option<Seq<char>>,
) -> bool {
    let result = policy.evaluate(action, resource);
    result.result_type == ResultType::Partial && result.outcome == ResultOutcome::Match
}

/// Whether some policy fully matches the request with the given effect.
pub open spec fn decided_by(
    policies: Seq<PolicyView>,
    effect: PolicyEffect,
    action: Option<Seq<char>>,
    resource: Option<Seq<char>>,
) -> bool {
    exists|i: int|
        0 <= i < policies.len() && (#[trigger] policies[i]).effect == effect && fully_matches(
            policies[i],
            action,
            resource,
        )
}

/// The partial policies of the policies that partly match the request: one
/// for each such policy, in the order of the policies.
pub open spec fn partials_of(
    policies: Seq<PolicyView>,
    action: Option<Seq<char>>,
    resource: Option<Seq<char>>,
) -> Seq<PartialPolicyView> {
    policies.filter(|p: PolicyView| partly_matches(p, action, resource)).map_values(
        |p: PolicyView| p.evaluate(action, resource).partial,
    )
}

/// The verdict of a list of policies on a request.
///
/// A policy that fully matches and denies settles the verdict, wherever it
/// stands in the list. Failing that, a policy that fully matches and allows
/// makes the verdict an allowance. Failing that too, the verdict is an
/// abstention. Unless the request is denied, the verdict carries the partial
/// policies of all policies that partly match.
pub open spec fn verdict(
    policies: Seq<PolicyView>,
    action: Option<Seq<char>>,
    resource: Option<Seq<char>>,
) -> AllowedResultView {
    if decided_by(policies, PolicyEffect::Deny, action, resource) {
        AllowedResultView { outcome: AllowedOutcome::Denied, partials: Seq::empty() }
    } else {
        AllowedResultView {
            outcome: if decided_by(policies, PolicyEffect::Allow, action, resource) {
                AllowedOutcome::Allowed
            } else {
                AllowedOutcome::Abstain
            },
            partials: partials_of(policies, action, resource),
        }
    }
}

/// The text of an optional string.
pub open spec fn optional_string(s: Option<String>) -> Option<Seq<char>> {
    match s {
        Some(s) => Some(s@),
        None => None,
    }
}

/// Gives the verdict of `policies` on a request.
pub fn allowed(
    policies: Vec<&CompletePolicy>,
    action: Option<String>,
    resource: Option<String>,
) -> (result: AllowedResult)
    ensures
        result@ == verdict(
            listed_views(policies@),
            optional_string(action),
            optional_string(resource),
        ),
{
    let mut outcome: AllowedOutcome = AllowedOutcome::Abstain;
    let mut partials: Vec<PartialPolicy> = Vec::new();
    let action_text: Option<&str> = match &action {
        Some(a) => Some(a.as_str()),
        None => None,
    };
    let resource_text: Option<&str> = match &resource {
        Some(r) => Some(r.as_str()),
        None => None,
    };
    let ghost views = listed_views(policies@);
    let ghost a = optional_string(action);
    let ghost r = optional_string(resource);

    let mut i: usize = 0;
    while i < policies.len()
        invariant
            i <= policies.len(),
            views == listed_views(policies@),
            a == optional_string(action),
            a == optional_text(action_text),
            r == optional_string(resource),
            r == optional_text(resource_text),
            !decided_by(views.take(i as int), PolicyEffect::Deny, a, r),
            outcome == if decided_by(views.take(i as int), PolicyEffect::Allow, a, r) {
                AllowedOutcome::Allowed
            } else {
                AllowedOutcome::Abstain
            },
            partial_views(partials@) == partials_of(views.take(i as int), a, r),
        decreases policies.len() - i,
    {
        let p = policies[i];
        let result = p.matching(action_text, resource_text);
        proof {
            let before = views.take(i as int);
            assert(before.push(p@) =~= views.take(i + 1));
            lemma_decided_by_push(before, p@, PolicyEffect::Deny, a, r);
            lemma_decided_by_push(before, p@, PolicyEffect::Allow, a, r);
            lemma_partials_of_push(before, p@, a, r);
        }
        if result.is_match() {
            if result.is_full() {
                if p.get_effect() == PolicyEffect::Deny {
                    proof {
                        lemma_decided_by_prefix(views, i + 1, PolicyEffect::Deny, a, r);
                    }
                    let denied = AllowedResult::new(AllowedOutcome::Denied, Vec::new());
                    assert(denied@.partials =~= Seq::empty());
                    return denied;
                }
                outcome = AllowedOutcome::Allowed;
            } else {
                partials.push(result.get_partial().clone());
            }
        }
        i += 1;
    }
    assert(views.take(i as int) =~= views);
    AllowedResult::new(outcome, partials)
}

/// What holds linked policies and gives a verdict from them.
pub trait Role {
    /// The policies that are linked, in order.
    spec fn role_policies(&self) -> Seq<PolicyView>;

    /// The policies that are linked.
    fn linked_policies(&self) -> (set: &PolicySet)
        ensures
            set@ == self.role_policies(),
    ;

    /// Gives the verdict of the linked policies on a request. An inline
    /// policy, if there is one, has no part in it.
    fn allowed(&self, action: Option<String>, resource: Option<String>) -> (result: AllowedResult)
        ensures
            result@ == verdict(
                self.role_policies(),
                optional_string(action),
                optional_string(resource),
            ),
    ;
}

/// Deny dominance: a policy that fully matches the request and denies makes
/// the verdict a denial, wherever it stands in the list and whatever the
/// other policies say; nothing is left to check then.
pub proof fn lemma_deny_dominates(
    policies: Seq<PolicyView>,
    i: int,
    action: Option<Seq<char>>,
    resource: Option<Seq<char>>,
)
    requires
        0 <= i < policies.len(),
        policies[i].effect == PolicyEffect::Deny,
        fully_matches(policies[i], action, resource),
    ensures
        verdict(policies, action, resource) == (AllowedResultView {
            outcome: AllowedOutcome::Denied,
            partials: Seq::empty(),
        }),
{
}

/// Allowance: when no policy fully matches and denies, a policy that fully
/// matches and allows makes the verdict an allowance, wherever it stands in
/// the list.
pub proof fn lemma_allow_without_deny(
    policies: Seq<PolicyView>,
    i: int,
    action: Option<Seq<char>>,
    resource: Option<Seq<char>>,
)
    requires
        0 <= i < policies.len(),
        policies[i].effect == PolicyEffect::Allow,
        fully_matches(policies[i], action, resource),
        !decided_by(policies, PolicyEffect::Deny, action, resource),
    ensures
        verdict(policies, action, resource).outcome == AllowedOutcome::Allowed,
{
}

/// The outcome, by the policies that fully match the request: a denial
/// exactly when one of them denies, an allowance exactly when one of them
/// allows and none denies, and an abstention exactly when there is none.
pub proof fn lemma_outcome_by_full_matches(
    policies: Seq<PolicyView>,
    action: Option<Seq<char>>,
    resource: Option<Seq<char>>,
)
    ensures
        verdict(policies, action, resource).outcome == AllowedOutcome::Denied <==> decided_by(
            policies,
            PolicyEffect::Deny,
            action,
            resource,
        ),
        verdict(policies, action, resource).outcome == AllowedOutcome::Allowed <==> decided_by(
            policies,
            PolicyEffect::Allow,
            action,
            resource,
        ) && !decided_by(policies, PolicyEffect::Deny, action, resource),
        verdict(policies, action, resource).outcome == AllowedOutcome::Abstain <==> forall|i: int|
            0 <= i < policies.len() ==> !fully_matches(#[trigger] policies[i], action, resource),
{
    if forall|i: int|
        0 <= i < policies.len() ==> !fully_matches(#[trigger] policies[i], action, resource) {
    } else {
        let i = choose|i: int|
            0 <= i < policies.len() && fully_matches(#[trigger] policies[i], action, resource);
        assert(policies[i].effect == PolicyEffect::Deny || policies[i].effect
            == PolicyEffect::Allow);
    }
}

/// Abstain default: when no policy fully matches the request, the verdict is
/// an abstention, and it carries one partial policy for each policy that
/// partly matches, in the order of the policies.
pub proof fn lemma_abstain_default(
    policies: Seq<PolicyView>,
    action: Option<Seq<char>>,
    resource: Option<Seq<char>>,
)
    requires
        forall|i: int| 0 <= i < policies.len() ==> !fully_matches(policies[i], action, resource),
    ensures
        verdict(policies, action, resource).outcome == AllowedOutcome::Abstain,
        verdict(policies, action, resource).partials == partials_of(policies, action, resource),
        partials_of(policies, action, resource).len() == policies.filter(
            |p: PolicyView| partly_matches(p, action, resource),
        ).len(),
{
}

/// The partial policy of a policy that partly matches carries the patterns
/// of the axis that is open, and of that axis only.
pub proof fn lemma_partial_carries_open_axis(
    policy: PolicyView,
    action: Option<Seq<char>>,
    resource: Option<Seq<char>>,
)
    requires
        partly_matches(policy, action, resource),
    ensures
        ({
            let result = policy.evaluate(action, resource);
            &&& result.partial.version == PolicyVersion::Version1
            &&& result.partial.effect == policy.effect
            &&& result.action_matches is None <==> result.resource_matches is Some
            &&& result.partial.actions == if result.action_matches is None {
                Some(policy.actions)
            } else {
                None
            }
            &&& result.partial.resources == if result.resource_matches is None {
                Some(policy.resources)
            } else {
                None
            }
        }),
{
}

/// Order: putting the policies in another order keeps the outcome of the
/// verdict, and gives the same partial policies, in another order.
pub proof fn lemma_verdict_of_reordering(
    policies: Seq<PolicyView>,
    reordered: Seq<PolicyView>,
    action: Option<Seq<char>>,
    resource: Option<Seq<char>>,
)
    requires
        reordered.to_multiset() == policies.to_multiset(),
    ensures
        verdict(reordered, action, resource).outcome == verdict(policies, action, resource).outcome,
        verdict(reordered, action, resource).partials.to_multiset() == verdict(
            policies,
            action,
            resource,
        ).partials.to_multiset(),
{
    lemma_decided_by_reordering(policies, reordered, PolicyEffect::Deny, action, resource);
    lemma_decided_by_reordering(policies, reordered, PolicyEffect::Allow, action, resource);
    lemma_partials_of_reordering(policies, reordered, action, resource);
}

/// What decides a list decides the list in any other order.
proof fn lemma_decided_by_reordering(
    policies: Seq<PolicyView>,
    reordered: Seq<PolicyView>,
    effect: PolicyEffect,
    action: Option<Seq<char>>,
    resource: Option<Seq<char>>,
)
    requires
        reordered.to_multiset() == policies.to_multiset(),
    ensures
        decided_by(reordered, effect, action, resource) == decided_by(
            policies,
            effect,
            action,
            resource,
        ),
{
    if decided_by(policies, effect, action, resource) {
        lemma_decided_by_members(policies, reordered, effect, action, resource);
    }
    if decided_by(reordered, effect, action, resource) {
        lemma_decided_by_members(reordered, policies, effect, action, resource);
    }
}

/// What decides a list decides every list that holds its policies.
proof fn lemma_decided_by_members(
    policies: Seq<PolicyView>,
    others: Seq<PolicyView>,
    effect: PolicyEffect,
    action: Option<Seq<char>>,
    resource: Option<Seq<char>>,
)
    requires
        others.to_multiset() == policies.to_multiset(),
        decided_by(policies, effect, action, resource),
    ensures
        decided_by(others, effect, action, resource),
{
    let i = choose|i: int|
        0 <= i < policies.len() && (#[trigger] policies[i]).effect == effect && fully_matches(
            policies[i],
            action,
            resource,
        );
    assert(policies.contains(policies[i]));
    to_multiset_contains(policies, policies[i]);
    to_multiset_contains(others, policies[i]);
    let j = choose|j: int| 0 <= j < others.len() && others[j] == policies[i];
    assert(others[j].effect == effect);
}

/// The partial policies of a list in another order are those of the list,
/// in another order.
proof fn lemma_partials_of_reordering(
    policies: Seq<PolicyView>,
    reordered: Seq<PolicyView>,
    action: Option<Seq<char>>,
    resource: Option<Seq<char>>,
)
    requires
        reordered.to_multiset() == policies.to_multiset(),
    ensures
        partials_of(reordered, action, resource).to_multiset() == partials_of(
            policies,
            action,
            resource,
        ).to_multiset(),
    decreases policies.len(),
{
    to_multiset_len(policies);
    to_multiset_len(reordered);
    if policies.len() == 0 {
        assert(reordered =~= policies);
    } else {
        let last = policies.last();
        let earlier = policies.drop_last();
        assert(policies.contains(last));
        to_multiset_contains(policies, last);
        to_multiset_contains(reordered, last);
        let j = choose|j: int| 0 <= j < reordered.len() && reordered[j] == last;
        let rest = reordered.remove(j);
        to_multiset_remove(reordered, j);
        to_multiset_remove(policies, policies.len() - 1);
        assert(policies.remove(policies.len() - 1) =~= earlier);
        lemma_partials_of_reordering(earlier, rest, action, resource);
        assert(earlier.push(last) =~= policies);
        lemma_partials_of_push(earlier, last, action, resource);
        lemma_partials_of_remove(reordered, j, action, resource);
        to_multiset_build(
            partials_of(earlier, action, resource),
            last.evaluate(action, resource).partial,
        );
    }
}

/// The partial policies of a list are those of the list without one of its
/// policies, and that of this policy among them if it partly matches.
proof fn lemma_partials_of_remove(
    policies: Seq<PolicyView>,
    i: int,
    action: Option<Seq<char>>,
    resource: Option<Seq<char>>,
)
    requires
        0 <= i < policies.len(),
    ensures
        partials_of(policies, action, resource).to_multiset() == if partly_matches(
            policies[i],
            action,
            resource,
        ) {
            partials_of(policies.remove(i), action, resource).to_multiset().insert(
                policies[i].evaluate(action, resource).partial,
            )
        } else {
            partials_of(policies.remove(i), action, resource).to_multiset()
        },
{
    let before = policies.take(i);
    let after = policies.skip(i + 1);
    let one = policies[i];
    let partial = one.evaluate(action, resource).partial;
    assert(policies =~= before.push(one) + after);
    assert(policies.remove(i) =~= before + after);
    lemma_partials_of_concat(before.push(one), after, action, resource);
    lemma_partials_of_concat(before, after, action, resource);
    lemma_partials_of_push(before, one, action, resource);
    lemma_multiset_commutative(
        partials_of(before.push(one), action, resource),
        partials_of(after, action, resource),
    );
    lemma_multiset_commutative(
        partials_of(before, action, resource),
        partials_of(after, action, resource),
    );
    to_multiset_build(partials_of(before, action, resource), partial);
}

/// The partial policies of two lists put together are those of the first
/// followed by those of the second.
proof fn lemma_partials_of_concat(
    first: Seq<PolicyView>,
    second: Seq<PolicyView>,
    action: Option<Seq<char>>,
    resource: Option<Seq<char>>,
)
    ensures
        partials_of(first + second, action, resource) == partials_of(first, action, resource)
            + partials_of(second, action, resource),
{
    Seq::filter_distributes_over_add(
        first,
        second,
        |p: PolicyView| partly_matches(p, action, resource),
    );
}

/// The partial policies of a list extended by one policy: those of the list,
/// and that of the new policy after them if it partly matches.
proof fn lemma_partials_of_push(
    policies: Seq<PolicyView>,
    policy: PolicyView,
    action: Option<Seq<char>>,
    resource: Option<Seq<char>>,
)
    ensures
        partials_of(policies.push(policy), action, resource) == if partly_matches(
            policy,
            action,
            resource,
        ) {
            partials_of(policies, action, resource).push(policy.evaluate(action, resource).partial)
        } else {
            partials_of(policies, action, resource)
        },
{
    policies.lemma_filter_push(policy, |p: PolicyView| partly_matches(p, action, resource));
}

/// A list extended by one policy is decided with an effect exactly when the
/// list was, or the new policy fully matches with that effect.
proof fn lemma_decided_by_push(
    policies: Seq<PolicyView>,
    policy: PolicyView,
    effect: PolicyEffect,
    action: Option<Seq<char>>,
    resource: Option<Seq<char>>,
)
    ensures
        decided_by(policies.push(policy), effect, action, resource) <==> decided_by(
            policies,
            effect,
            action,
            resource,
        ) || (policy.effect == effect && fully_matches(policy, action, resource)),
{
    let longer = policies.push(policy);
    if decided_by(policies, effect, action, resource) {
        let i = choose|i: int|
            0 <= i < policies.len() && (#[trigger] policies[i]).effect == effect && fully_matches(
                policies[i],
                action,
                resource,
            );
        assert(longer[i] == policies[i]);
    }
    if policy.effect == effect && fully_matches(policy, action, resource) {
        assert(longer[policies.len() as int] == policy);
    }
    if decided_by(longer, effect, action, resource) {
        let i = choose|i: int|
            0 <= i < longer.len() && (#[trigger] longer[i]).effect == effect && fully_matches(
                longer[i],
                action,
                resource,
            );
        if i < policies.len() {
            assert(policies[i] == longer[i]);
        }
    }
}

/// What decides a prefix of a list decides the list.
proof fn lemma_decided_by_prefix(
    policies: Seq<PolicyView>,
    n: int,
    effect: PolicyEffect,
    action: Option<Seq<char>>,
    resource: Option<Seq<char>>,
)
    requires
        0 <= n <= policies.len(),
        decided_by(policies.take(n), effect, action, resource),
    ensures
        decided_by(policies, effect, action, resource),
{
    let prefix = policies.take(n);
    let i = choose|i: int|
        0 <= i < prefix.len() && (#[trigger] prefix[i]).effect == effect && fully_matches(
            prefix[i],
            action,
            resource,
        );
    assert(policies[i] == prefix[i]);
}

} // verus!
