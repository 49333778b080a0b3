//! Groups of identities.

use crate::identity::identity::{Identity, IdentityView, ToIdentityId};
use crate::identity::role::{allowed, Role};
use crate::identity::subject::{
    inline_policy_json, optional_policy_json, optional_view, Subject,
};
use crate::policy::allowed_result::AllowedResult;
use crate::policy::policy::{CompletePolicy, PolicyView, ToJson};
use crate::policy::policy_set::{
    policy_ids, with_policy, without_policy, PolicySet, PolicySetHelper, PolicySetTrait,
};
use crate::utils::json::{
    json_value, no_fields, object_insert, object_new, text, text_list, text_list_spec, Json,
};
use crate::utils::text::{
    lemma_filter_keeps_all, lemma_filter_keeps_distinct_keys, lemma_filter_leaves_out_one, texts,
};
use serde_json::{Map as JsonMap, Value};
use vstd::prelude::*;
use vstd::std_specs::convert::FromSpecImpl;

verus! {

/// The identifiers of a list of identities, in order.
pub open spec fn identity_ids(identities: Seq<IdentityView>) -> Seq<Seq<char>> {
    identities.map_values(|i: IdentityView| i.id)
}

/// What a list of identities says, in order.
pub open spec fn identity_views(identities: Seq<Identity>) -> Seq<IdentityView> {
    identities.map_values(|i: Identity| i@)
}

/// The list with `identity` added: unchanged when an identity with its
/// identifier is a member already, and with `identity` at the end otherwise.
pub open spec fn with_identity(
    identities: Seq<IdentityView>,
    identity: IdentityView,
) -> Seq<IdentityView> {
    if identity_ids(identities).contains(identity.id) {
        identities
    } else {
        identities.push(identity)
    }
}

/// The list without the identities that have the identifier `id`.
pub open spec fn without_identity(
    identities: Seq<IdentityView>,
    id: Seq<char>,
) -> Seq<IdentityView> {
    identities.filter(|i: IdentityView| i.id != id)
}

/// An ordered collection of identities in which no identifier occurs twice.
pub struct IdentitySet {
    identities: Vec<Identity>,
}

impl View for IdentitySet {
    type V = Seq<IdentityView>;

    closed spec fn view(&self) -> Seq<IdentityView> {
        identity_views(self.identities@)
    }
}

impl IdentitySet {
    /// No identifier occurs twice among the members.
    #[verifier::type_invariant]
    closed spec fn well_formed(&self) -> bool {
        identity_ids(identity_views(self.identities@)).no_duplicates()
    }

    /// The set without members.
    fn new() -> (set: Self)
        ensures
            set@ == Seq::<IdentityView>::empty(),
    {
        IdentitySet { identities: Vec::new() }
    }

    /// The members, in order.
    pub fn identities(&self) -> (members: &Vec<Identity>)
        ensures
            identity_views(members@) == self@,
            identity_ids(self@).no_duplicates(),
    {
        proof {
            use_type_invariant(self);
        }
        &self.identities
    }

    /// The identifiers of the members, in order.
    pub fn ids(&self) -> (ids: Vec<String>)
        ensures
            texts(ids@) == identity_ids(self@),
    {
        let mut ids: Vec<String> = Vec::new();
        let mut i: usize = 0;
        while i < self.identities.len()
            invariant
                i <= self.identities.len(),
                ids@.len() == i,
                forall|j: int| 0 <= j < i ==> (#[trigger] ids@[j])@ == self.identities@[j]@.id,
            decreases self.identities.len() - i,
        {
            ids.push(self.identities[i].get_id());
            i += 1;
        }
        ids
    }

    /// Puts `identity` at the end of `identities` unless an identity with its
    /// identifier is among them already.
    fn insert_if_missing(identities: &mut Vec<Identity>, identity: Identity)
        requires
            identity_ids(identity_views(old(identities)@)).no_duplicates(),
        ensures
            identity_views(final(identities)@) == with_identity(
                identity_views(old(identities)@),
                identity@,
            ),
            identity_ids(identity_views(final(identities)@)).no_duplicates(),
    {
        let ghost before = identity_views(identities@);
        let ghost ids = identity_ids(before);
        let mut i: usize = 0;
        while i < identities.len()
            invariant
                i <= identities.len(),
                identities@ == old(identities)@,
                before == identity_views(identities@),
                ids == identity_ids(before),
                ids.no_duplicates(),
                forall|j: int| 0 <= j < i ==> ids[j] != identity@.id,
            decreases identities.len() - i,
        {
            if *identities[i].to_identity_id() == *identity.to_identity_id() {
                assert(ids[i as int] == identity@.id);
                return;
            }
            i += 1;
        }
        identities.push(identity);
        proof {
            assert(identity_ids(identity_views(identities@)) =~= ids.push(identity@.id));
        }
    }

    /// Adds `identity` unless an identity with its identifier is a member
    /// already; the member that is there stays as it is.
    pub fn add_identity(self, identity: Identity) -> (set: Self)
        ensures
            set@ == with_identity(self@, identity@),
            identity_ids(set@).no_duplicates(),
    {
        proof {
            use_type_invariant(&self);
        }
        let mut identities = self.identities;
        Self::insert_if_missing(&mut identities, identity);

        IdentitySet { identities }
    }

    /// Removes the member that `identity` names, if there is one.
    pub fn remove_identity<T: ToIdentityId>(self, identity: T) -> (set: Self)
        ensures
            set@ == without_identity(self@, identity.identity_id_spec()),
            identity_ids(set@).no_duplicates(),
    {
        proof {
            use_type_invariant(&self);
        }
        let identity_id = identity.to_identity_id();
        let ghost before = self@;
        let ghost keep = |i: IdentityView| i.id != identity_id@;
        let mut identities: Vec<Identity> = Vec::new();
        for member in it: self.identities
            invariant
                before == identity_views(it.seq()),
                keep == |i: IdentityView| i.id != identity_id@,
                identity_views(identities@) == before.take(it.index() as int).filter(keep),
        {
            proof {
                let done = before.take(it.index() as int);
                assert(before.take(it.index() + 1) =~= done.push(member@));
                done.lemma_filter_push(member@, keep);
            }
            if *member.to_identity_id() != *identity_id {
                identities.push(member);
            }
        }
        proof {
            assert(before.take(before.len() as int) =~= before);
            lemma_filter_keeps_distinct_keys(before, |i: IdentityView| i.id, keep);
        }
        IdentitySet { identities }
    }
}

/// Adding an identity whose identifier a member has already changes
/// nothing: the member stays as it was.
pub proof fn lemma_add_member_again(identities: Seq<IdentityView>, identity: IdentityView)
    requires
        identity_ids(identities).contains(identity.id),
    ensures
        with_identity(identities, identity) == identities,
{
}

/// Removing an identifier that no member has changes nothing.
pub proof fn lemma_remove_stranger(identities: Seq<IdentityView>, id: Seq<char>)
    requires
        !identity_ids(identities).contains(id),
    ensures
        without_identity(identities, id) == identities,
{
    assert forall|j: int| 0 <= j < identities.len() implies (#[trigger] identities[j]).id
        != id by {
        assert(identity_ids(identities)[j] == identities[j].id);
    }
    lemma_filter_keeps_all(identities, |i: IdentityView| i.id != id);
}

/// Removing the identifier of a member removes that member from its place
/// and leaves all others as they are.
pub proof fn lemma_remove_member(identities: Seq<IdentityView>, i: int)
    requires
        identity_ids(identities).no_duplicates(),
        0 <= i < identities.len(),
    ensures
        without_identity(identities, identities[i].id) == identities.remove(i),
{
    let id = identities[i].id;
    assert forall|j: int| 0 <= j < identities.len() && j != i implies (
    #[trigger] identities[j]).id != id by {
        assert(identity_ids(identities)[j] != identity_ids(identities)[i]);
    }
    lemma_filter_leaves_out_one(identities, |m: IdentityView| m.id != id, i);
}

/// What a group says.
pub struct GroupView {
    pub name: Seq<char>,
    pub identities: Seq<IdentityView>,
    pub inline_policy: Option<PolicyView>,
    pub linked_policies: Seq<PolicyView>,
}

impl GroupView {
    /// The fields of the object that stands for this group; the members and
    /// the linked policies are listed by identifier.
    pub open spec fn json_spec(self) -> Map<Seq<char>, Json> {
        no_fields()
            .insert("id"@, Json::Text(self.name))
            .insert("inline_policy"@, optional_policy_json(self.inline_policy))
            .insert("identities"@, text_list_spec(identity_ids(self.identities)))
            .insert("linked_policies"@, text_list_spec(policy_ids(self.linked_policies)))
    }
}

/// A named group of identities, with an optional policy of its own and the
/// policies linked to it.
pub struct Group {
    pub(crate) name: String,
    pub(crate) identities: IdentitySet,
    pub(crate) inline_policy: Option<CompletePolicy>,
    pub(crate) linked_policies: PolicySet,
}

impl View for Group {
    type V = GroupView;

    closed spec fn view(&self) -> GroupView {
        GroupView {
            name: self.name@,
            identities: self.identities@,
            inline_policy: optional_view(self.inline_policy),
            linked_policies: self.linked_policies@,
        }
    }
}

impl Group {
    /// The group of that name without members or linked policies.
    pub fn new(name: String, policy: Option<CompletePolicy>) -> (group: Self)
        ensures
            group@ == (GroupView {
                name: name@,
                identities: Seq::empty(),
                inline_policy: optional_view(policy),
                linked_policies: Seq::empty(),
            }),
    {
        Group {
            name,
            identities: IdentitySet::new(),
            inline_policy: policy,
            linked_policies: PolicySet::new(),
        }
    }

    /// The name of the group.
    pub fn get_name(&self) -> (name: String)
        ensures
            name@ == self@.name,
    {
        self.name.clone()
    }

    /// The group without a policy of its own; nothing else changes.
    pub fn clear_inline_policy(self) -> (group: Self)
        ensures
            group@ == (GroupView { inline_policy: None, ..self@ }),
    {
        let mut group = self;
        group.inline_policy = Option::None;
        group
    }

    /// The group with `policy` as its own; nothing else changes.
    pub fn set_inline_policy(self, policy: CompletePolicy) -> (group: Self)
        ensures
            group@ == (GroupView { inline_policy: Some(policy@), ..self@ }),
    {
        let mut group = self;
        group.inline_policy = Option::Some(policy);
        group
    }

    /// Adds `identity` unless an identity with its identifier is a member
    /// already; the member that is there stays as it is.
    pub fn add_identity(self, identity: Identity) -> (group: Self)
        ensures
            group@ == (GroupView {
                identities: with_identity(self@.identities, identity@),
                ..self@
            }),
    {
        let Group { name, identities, inline_policy, linked_policies } = self;
        Group {
            name,
            identities: identities.add_identity(identity),
            inline_policy,
            linked_policies,
        }
    }

    /// Removes the member that `identity` names, if there is one.
    pub fn remove_identity<T: ToIdentityId>(self, identity: T) -> (group: Self)
        ensures
            group@ == (GroupView {
                identities: without_identity(self@.identities, identity.identity_id_spec()),
                ..self@
            }),
    {
        let Group { name, identities, inline_policy, linked_policies } = self;
        Group {
            name,
            identities: identities.remove_identity(identity),
            inline_policy,
            linked_policies,
        }
    }

    /// The members of the group.
    pub fn identities(&self) -> (members: &IdentitySet)
        ensures
            members@ == self@.identities,
    {
        &self.identities
    }
}

impl From<Group> for Value {
    /// The object that stands for the group.
    fn from(group: Group) -> (value: Self)
        ensures
            json_value(value) == Json::Object(group@.json_spec()),
    {
        group.to_value()
    }
}

impl FromSpecImpl<Group> for Value {
    open spec fn obeys_from_spec() -> bool {
        false
    }

    open spec fn from_spec(group: Group) -> Self {
        arbitrary()
    }
}

impl PolicySetTrait for Group {
    open spec fn linked_spec(&self) -> Seq<PolicyView> {
        self@.linked_policies
    }

    fn add_policy(self, policy: CompletePolicy) -> (linked: Self)
        ensures
            linked@ == (GroupView {
                linked_policies: with_policy(self@.linked_policies, policy@),
                ..self@
            }),
    {
        let Group { name, identities, inline_policy, linked_policies } = self;
        Group {
            name,
            identities,
            inline_policy,
            linked_policies: PolicySetHelper::link_policy(linked_policies, policy),
        }
    }

    fn remove_policy(self, id: &str) -> (unlinked: Self)
        ensures
            unlinked@ == (GroupView {
                linked_policies: without_policy(self@.linked_policies, id@),
                ..self@
            }),
    {
        let Group { name, identities, inline_policy, linked_policies } = self;
        Group {
            name,
            identities,
            inline_policy,
            linked_policies: PolicySetHelper::unlink_policy(linked_policies, id),
        }
    }
}

impl ToJson for Group {
    open spec fn json_spec(&self) -> Map<Seq<char>, Json> {
        self@.json_spec()
    }

    fn to_json(&self) -> (fields: JsonMap<String, Value>) {
        let mut map = object_new();
        object_insert(&mut map, "id".to_owned(), text(self.name.clone()));
        object_insert(
            &mut map,
            "inline_policy".to_owned(),
            inline_policy_json(&self.inline_policy),
        );
        object_insert(&mut map, "identities".to_owned(), text_list(&self.identities.ids()));
        object_insert(
            &mut map,
            "linked_policies".to_owned(),
            text_list(&self.linked_policies.ids()),
        );

        map
    }
}

impl Subject for Group {
    open spec fn inline_spec(&self) -> Option<PolicyView> {
        self@.inline_policy
    }

    fn get_inline_policy(&self) -> (policy: Option<&CompletePolicy>) {
        self.inline_policy.as_ref()
    }
}

impl Role for Group {
    open spec fn role_policies(&self) -> Seq<PolicyView> {
        self@.linked_policies
    }

    fn linked_policies(&self) -> (set: &PolicySet) {
        &self.linked_policies
    }

    fn allowed(&self, action: Option<String>, resource: Option<String>) -> (result: AllowedResult) {
        allowed(self.linked_policies.policies(), action, resource)
    }
}

} // verus!
