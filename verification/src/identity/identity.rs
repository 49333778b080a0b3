//! Identities.

use crate::identity::role::{allowed, Role};
use crate::identity::subject::{
    inline_policy_json, optional_policy_json, optional_view, Subject,
};
use crate::policy::allowed_result::AllowedResult;
use crate::policy::policy::{CompletePolicy, PolicyView, ToJson};
use crate::policy::policy_set::{
    policy_ids, with_policy, without_policy, PolicySet, PolicySetHelper, PolicySetTrait,
};
use crate::utils::json::{
    json_value, no_fields, object_insert, object_new, text, text_list, text_list_spec, Json,
};
use serde_json::{Map as JsonMap, Value};
use vstd::prelude::*;
use vstd::std_specs::convert::FromSpecImpl;

verus! {

/// What an identity says.
pub struct IdentityView {
    pub id: Seq<char>,
    pub inline_policy: Option<PolicyView>,
    pub linked_policies: Seq<PolicyView>,
}

impl IdentityView {
    /// The fields of the object that stands for this identity; the linked
    /// policies are listed by identifier.
    pub open spec fn json_spec(self) -> Map<Seq<char>, Json> {
        no_fields()
            .insert("id"@, Json::Text(self.id))
            .insert("inline_policy"@, optional_policy_json(self.inline_policy))
            .insert("linked_policies"@, text_list_spec(policy_ids(self.linked_policies)))
    }
}

/// An identity, with an optional policy of its own and the policies linked to
/// it.
pub struct Identity {
    pub(crate) id: String,
    pub(crate) inline_policy: Option<CompletePolicy>,
    pub(crate) linked_policies: PolicySet,
}

impl View for Identity {
    type V = IdentityView;

    closed spec fn view(&self) -> IdentityView {
        IdentityView {
            id: self.id@,
            inline_policy: optional_view(self.inline_policy),
            linked_policies: self.linked_policies@,
        }
    }
}

impl Identity {
    /// The identity with that identifier and no linked policies.
    pub fn new(id: String, policy: Option<CompletePolicy>) -> (identity: Self)
        ensures
            identity@ == (IdentityView {
                id: id@,
                inline_policy: optional_view(policy),
                linked_policies: Seq::empty(),
            }),
    {
        Identity { id, inline_policy: policy, linked_policies: PolicySet::new() }
    }

    /// The identifier of the identity.
    pub fn get_id(&self) -> (id: String)
        ensures
            id@ == self@.id,
    {
        self.id.clone()
    }

    /// The identity without a policy of its own; nothing else changes.
    pub fn clear_inline_policy(self) -> (identity: Self)
        ensures
            identity@ == (IdentityView { inline_policy: None, ..self@ }),
    {
        let mut identity = self;
        identity.inline_policy = Option::None;
        identity
    }

    /// The identity with `policy` as its own; nothing else changes.
    pub fn set_inline_policy(self, policy: CompletePolicy) -> (identity: Self)
        ensures
            identity@ == (IdentityView { inline_policy: Some(policy@), ..self@ }),
    {
        let mut identity = self;
        identity.inline_policy = Option::Some(policy);
        identity
    }
}

/// What names an identity.
pub trait ToIdentityId {
    /// The identifier that is named.
    spec fn identity_id_spec(&self) -> Seq<char>;

    /// The identifier that is named.
    fn to_identity_id(&self) -> (id: &String)
        ensures
            id@ == self.identity_id_spec(),
    ;
}

impl ToIdentityId for Identity {
    open spec fn identity_id_spec(&self) -> Seq<char> {
        self@.id
    }

    fn to_identity_id(&self) -> (id: &String) {
        &self.id
    }
}

impl ToIdentityId for String {
    open spec fn identity_id_spec(&self) -> Seq<char> {
        self@
    }

    fn to_identity_id(&self) -> (id: &String) {
        self
    }
}

impl Subject for Identity {
    open spec fn inline_spec(&self) -> Option<PolicyView> {
        self@.inline_policy
    }

    fn get_inline_policy(&self) -> (policy: Option<&CompletePolicy>) {
        self.inline_policy.as_ref()
    }
}

impl ToJson for Identity {
    open spec fn json_spec(&self) -> Map<Seq<char>, Json> {
        self@.json_spec()
    }

    fn to_json(&self) -> (fields: JsonMap<String, Value>) {
        let mut map = object_new();
        object_insert(&mut map, "id".to_owned(), text(self.id.clone()));
        object_insert(
            &mut map,
            "inline_policy".to_owned(),
            inline_policy_json(&self.inline_policy),
        );
        object_insert(
            &mut map,
            "linked_policies".to_owned(),
            text_list(&self.linked_policies.ids()),
        );

        map
    }
}

impl From<Identity> for Value {
    /// The object that stands for the identity.
    fn from(identity: Identity) -> (value: Self)
        ensures
            json_value(value) == Json::Object(identity@.json_spec()),
    {
        identity.to_value()
    }
}

impl FromSpecImpl<Identity> for Value {
    open spec fn obeys_from_spec() -> bool {
        false
    }

    open spec fn from_spec(identity: Identity) -> Self {
        arbitrary()
    }
}

impl PolicySetTrait for Identity {
    open spec fn linked_spec(&self) -> Seq<PolicyView> {
        self@.linked_policies
    }

    fn add_policy(self, policy: CompletePolicy) -> (linked: Self)
        ensures
            linked@ == (IdentityView {
                linked_policies: with_policy(self@.linked_policies, policy@),
                ..self@
            }),
    {
        let Identity { id, inline_policy, linked_policies } = self;
        Identity {
            id,
            inline_policy,
            linked_policies: PolicySetHelper::link_policy(linked_policies, policy),
        }
    }

    fn remove_policy(self, id: &str) -> (unlinked: Self)
        ensures
            unlinked@ == (IdentityView {
                linked_policies: without_policy(self@.linked_policies, id@),
                ..self@
            }),
    {
        let Identity { id: own_id, inline_policy, linked_policies } = self;
        Identity {
            id: own_id,
            inline_policy,
            linked_policies: PolicySetHelper::unlink_policy(linked_policies, id),
        }
    }
}

impl Role for Identity {
    open spec fn role_policies(&self) -> Seq<PolicyView> {
        self@.linked_policies
    }

    fn linked_policies(&self) -> (set: &PolicySet) {
        &self.linked_policies
    }

    fn allowed(&self, action: Option<String>, resource: Option<String>) -> (result: AllowedResult) {
        allowed(self.linked_policies.policies(), action, resource)
    }
}

} // verus!
