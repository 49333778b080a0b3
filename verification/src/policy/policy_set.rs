//! Sets of policies, keyed by identifier.

use crate::policy::policy::{CompletePolicy, PolicyView};
use crate::utils::text::{
    lemma_filter_keeps_all, lemma_filter_keeps_distinct_keys, lemma_filter_leaves_out_one, texts,
};
use vstd::prelude::*;

verus! {

/// The identifiers of a list of policies, in order.
pub open spec fn policy_ids(policies: Seq<PolicyView>) -> Seq<Seq<char>> {
    policies.map_values(|p: PolicyView| p.id)
}

/// What a list of policies says, in order.
pub open spec fn policy_views(policies: Seq<CompletePolicy>) -> Seq<PolicyView> {
    policies.map_values(|p: CompletePolicy| p@)
}

/// What a list of policies that are held elsewhere says, in order.
pub open spec fn listed_views(policies: Seq<&CompletePolicy>) -> Seq<PolicyView> {
    policies.map_values(|p: &CompletePolicy| p@)
}

/// The list with `policy` linked: in the place of the policy that had its
/// identifier, or at the end when none had.
pub open spec fn with_policy(policies: Seq<PolicyView>, policy: PolicyView) -> Seq<PolicyView> {
    if policy_ids(policies).contains(policy.id) {
        policies.map_values(
            |p: PolicyView|
                if p.id == policy.id {
                    policy
                } else {
                    p
                },
        )
    } else {
        policies.push(policy)
    }
}

/// The list without the policies that have the identifier `id`.
pub open spec fn without_policy(policies: Seq<PolicyView>, id: Seq<char>) -> Seq<PolicyView> {
    policies.filter(|p: PolicyView| p.id != id)
}

/// An ordered collection of policies in which no identifier occurs twice.
pub struct PolicySet {
    policies: Vec<CompletePolicy>,
}

impl View for PolicySet {
    type V = Seq<PolicyView>;

    closed spec fn view(&self) -> Seq<PolicyView> {
        policy_views(self.policies@)
    }
}

impl PolicySet {
    /// No identifier occurs twice among the policies.
    #[verifier::type_invariant]
    closed spec fn well_formed(&self) -> bool {
        policy_ids(policy_views(self.policies@)).no_duplicates()
    }

    /// The set without policies.
    pub fn new() -> (set: Self)
        ensures
            set@ == Seq::<PolicyView>::empty(),
    {
        PolicySet { policies: Vec::new() }
    }

    /// The number of policies in the set.
    pub fn len(&self) -> (n: usize)
        ensures
            n == self@.len(),
    {
        self.policies.len()
    }

    /// The policies of the set, in order.
    pub fn policies(&self) -> (list: Vec<&CompletePolicy>)
        ensures
            listed_views(list@) == self@,
            policy_ids(self@).no_duplicates(),
    {
        proof {
            use_type_invariant(self);
        }
        let mut list: Vec<&CompletePolicy> = Vec::new();
        let mut i: usize = 0;
        while i < self.policies.len()
            invariant
                i <= self.policies.len(),
                list@.len() == i,
                forall|j: int| 0 <= j < i ==> *(#[trigger] list@[j]) == self.policies@[j],
            decreases self.policies.len() - i,
        {
            list.push(&self.policies[i]);
            i += 1;
        }
        list
    }

    /// The identifiers of the policies of the set, in order.
    pub fn ids(&self) -> (ids: Vec<String>)
        ensures
            texts(ids@) == policy_ids(self@),
    {
        let mut ids: Vec<String> = Vec::new();
        let mut i: usize = 0;
        while i < self.policies.len()
            invariant
                i <= self.policies.len(),
                ids@.len() == i,
                forall|j: int| 0 <= j < i ==> (#[trigger] ids@[j])@ == self.policies@[j]@.id,
            decreases self.policies.len() - i,
        {
            ids.push(self.policies[i].id().clone());
            i += 1;
        }
        ids
    }

    /// Links `policy`: it takes the place of the policy that has its
    /// identifier, if there is one, and comes last otherwise.
    pub fn insert(self, policy: CompletePolicy) -> (set: Self)
        ensures
            set@ == with_policy(self@, policy@),
            policy_ids(set@).no_duplicates(),
    {
        proof {
            use_type_invariant(&self);
        }
        let ghost before = self@;
        let mut policies = self.policies;
        match position(&policies, policy.id()) {
            Some(i) => {
                let ghost ids = policy_ids(before);
                assert(ids.contains(ids[i as int]));
                assert forall|j: int| 0 <= j < before.len() && j != i implies before[j].id
                    != policy@.id by {
                    assert(ids[j] != ids[i as int]);
                }
                policies.set(i, policy);
                assert(policy_ids(policy_views(policies@)) =~= ids);
            },
            None => {
                let ghost ids = policy_ids(before);
                policies.push(policy);
                assert(policy_ids(policy_views(policies@)) =~= ids.push(policy@.id));
            },
        }
        PolicySet { policies }
    }

    /// Unlinks the policy that has the identifier `id`, if there is one.
    pub fn remove(self, id: &str) -> (set: Self)
        ensures
            set@ == without_policy(self@, id@),
            policy_ids(set@).no_duplicates(),
    {
        proof {
            use_type_invariant(&self);
        }
        let ghost before = self@;
        let ghost keep = |p: PolicyView| p.id != id@;
        let id = id.to_owned();
        let mut policies: Vec<CompletePolicy> = Vec::new();
        for policy in it: self.policies
            invariant
                before == policy_views(it.seq()),
                keep == |p: PolicyView| p.id != id@,
                policy_views(policies@) == before.take(it.index() as int).filter(keep),
        {
            proof {
                let done = before.take(it.index() as int);
                assert(before.take(it.index() + 1) =~= done.push(policy@));
                done.lemma_filter_push(policy@, keep);
            }
            if *policy.id() != id {
                policies.push(policy);
            }
        }
        proof {
            assert(before.take(before.len() as int) =~= before);
            lemma_filter_keeps_distinct_keys(before, |p: PolicyView| p.id, keep);
        }
        PolicySet { policies }
    }
}

/// The place of the first policy that has the identifier `id`.
fn position(policies: &Vec<CompletePolicy>, id: &String) -> (place: Option<usize>)
    ensures
        match place {
            Some(i) => i < policies@.len() && policies@[i as int]@.id == id@,
            None => !policy_ids(policy_views(policies@)).contains(id@),
        },
{
    let mut i: usize = 0;
    while i < policies.len()
        invariant
            i <= policies.len(),
            forall|j: int| 0 <= j < i ==> policy_ids(policy_views(policies@))[j] != id@,
        decreases policies.len() - i,
    {
        if *policies[i].id() == *id {
            return Some(i);
        }
        i += 1;
    }
    None
}

/// Linking a policy whose identifier a linked policy has puts it in the
/// place of that policy and leaves all others as they are.
pub proof fn lemma_link_replaces(policies: Seq<PolicyView>, policy: PolicyView, i: int)
    requires
        policy_ids(policies).no_duplicates(),
        0 <= i < policies.len(),
        policies[i].id == policy.id,
    ensures
        with_policy(policies, policy) == policies.update(i, policy),
{
    assert(policy_ids(policies)[i] == policy.id);
    assert forall|j: int| 0 <= j < policies.len() && j != i implies (#[trigger] policies[j]).id
        != policy.id by {
        assert(policy_ids(policies)[j] != policy_ids(policies)[i]);
    }
    assert(with_policy(policies, policy) =~= policies.update(i, policy));
}

/// Linking a policy whose identifier no linked policy has puts it last.
pub proof fn lemma_link_appends(policies: Seq<PolicyView>, policy: PolicyView)
    requires
        !policy_ids(policies).contains(policy.id),
    ensures
        with_policy(policies, policy) == policies.push(policy),
{
}

/// Unlinking the identifier of a linked policy removes that policy from its
/// place and leaves all others as they are.
pub proof fn lemma_unlink_removes(policies: Seq<PolicyView>, i: int)
    requires
        policy_ids(policies).no_duplicates(),
        0 <= i < policies.len(),
    ensures
        without_policy(policies, policies[i].id) == policies.remove(i),
{
    let id = policies[i].id;
    assert forall|j: int| 0 <= j < policies.len() && j != i implies (#[trigger] policies[j]).id
        != id by {
        assert(policy_ids(policies)[j] != policy_ids(policies)[i]);
    }
    lemma_filter_leaves_out_one(policies, |p: PolicyView| p.id != id, i);
}

/// Unlinking an identifier that no linked policy has changes nothing.
pub proof fn lemma_unlink_stranger(policies: Seq<PolicyView>, id: Seq<char>)
    requires
        !policy_ids(policies).contains(id),
    ensures
        without_policy(policies, id) == policies,
{
    assert forall|j: int| 0 <= j < policies.len() implies (#[trigger] policies[j]).id != id by {
        assert(policy_ids(policies)[j] == policies[j].id);
    }
    lemma_filter_keeps_all(policies, |p: PolicyView| p.id != id);
}

/// What links policies to itself and unlinks them again.
pub trait PolicySetTrait: Sized {
    /// The policies that are linked, in order.
    spec fn linked_spec(&self) -> Seq<PolicyView>;

    /// Links `policy`, in the place of the policy that has its identifier
    /// if there is one.
    fn add_policy(self, policy: CompletePolicy) -> (linked: Self)
        ensures
            linked.linked_spec() == with_policy(self.linked_spec(), policy@),
    ;

    /// Unlinks the policy that has the identifier `id`, if there is one.
    fn remove_policy(self, id: &str) -> (unlinked: Self)
        ensures
            unlinked.linked_spec() == without_policy(self.linked_spec(), id@),
    ;
}

/// Links policies to sets and unlinks them.
pub struct PolicySetHelper {}

impl PolicySetHelper {
    /// The set with `policy` linked.
    pub fn link_policy(set: PolicySet, policy: CompletePolicy) -> (linked: PolicySet)
        ensures
            linked@ == with_policy(set@, policy@),
    {
        set.insert(policy)
    }

    /// The set without the policy that has the identifier `id`.
    pub fn unlink_policy(set: PolicySet, id: &str) -> (unlinked: PolicySet)
        ensures
            unlinked@ == without_policy(set@, id@),
    {
        set.remove(id)
    }
}

} // verus!
