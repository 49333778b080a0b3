//! Policies: their versions and effects, and how they are built.

pub mod allowed_result;
pub mod match_result;
pub mod policy;
pub mod policy_set;

use crate::err::{Error, UnknownPolicyVersionError};
use crate::policy::policy::{can_construct, stored_resources, CompletePolicy, PolicyView};
use crate::utils::text::texts;
use crate::utils::json::{json_value, number, text, Json};
use serde_json::Value;
use vstd::prelude::*;
use vstd::std_specs::cmp::PartialEqSpecImpl;
use vstd::std_specs::convert::{FromSpecImpl, TryFromSpecImpl};

verus! {

/// Get a new policy object
///
/// A policy without actions is refused. A policy without resources applies
/// to every resource. Construction succeeds exactly when there is an action
/// and the engine accepts the expression of every pattern that is compiled;
/// when the engine refuses one, its message comes back under the generic
/// error kind.
pub fn policy_new(
    id: String,
    version: PolicyVersion,
    effect: PolicyEffect,
    actions: Vec<String>,
    resources: Vec<String>,
) -> (r: Result<CompletePolicy, Error>)
    ensures
        r is Ok <==> can_construct(texts(actions@), texts(resources@)),
        match r {
            Ok(policy) => policy@ == (PolicyView {
                id: id@,
                version,
                effect,
                actions: texts(actions@),
                resources: stored_resources(texts(resources@)),
            }),
            Err(e) => if actions@.len() == 0 {
                e.is_actions_cannot_be_empty()
            } else {
                e.is_wrapped()
            },
        },
{
    CompletePolicy::new(id, version, effect, actions, resources)
}

/// The version of the policy language a policy is written in.
#[derive(Clone, Copy, Debug, PartialEq, Eq, Structural)]
pub enum PolicyVersion {
    Version1,
}

impl PolicyVersion {
    /// The number that stands for this version.
    pub open spec fn number_spec(self) -> int {
        match self {
            PolicyVersion::Version1 => 1,
        }
    }

    /// The number that stands for this version.
    pub fn number(&self) -> (n: i32)
        ensures
            n == self.number_spec(),
    {
        match self {
            PolicyVersion::Version1 => 1,
        }
    }
}

impl TryFrom<i32> for PolicyVersion {
    type Error = UnknownPolicyVersionError;

    fn try_from(value: i32) -> (r: Result<Self, Self::Error>) {
        if value == 1 {
            Ok(PolicyVersion::Version1)
        } else {
            Err(UnknownPolicyVersionError::new(value))
        }
    }
}

impl TryFromSpecImpl<i32> for PolicyVersion {
    open spec fn obeys_try_from_spec() -> bool {
        true
    }

    /// Only `1` names a version; any other number is handed back in the error.
    open spec fn try_from_spec(value: i32) -> Result<Self, Self::Error> {
        if value == 1 {
            Ok(PolicyVersion::Version1)
        } else {
            Err(UnknownPolicyVersionError { version: value })
        }
    }
}

impl PartialEq<i32> for PolicyVersion {
    fn eq(&self, other: &i32) -> (r: bool) {
        self.number() == *other
    }
}

impl PartialEqSpecImpl<i32> for PolicyVersion {
    open spec fn obeys_eq_spec() -> bool {
        true
    }

    /// A version equals the number that stands for it.
    open spec fn eq_spec(&self, other: &i32) -> bool {
        self.number_spec() == *other
    }
}

impl From<&PolicyVersion> for Value {
    fn from(value: &PolicyVersion) -> (json: Self)
        ensures
            json_value(json) == Json::Number(value.number_spec()),
    {
        number(value.number())
    }
}

impl FromSpecImpl<&PolicyVersion> for Value {
    open spec fn obeys_from_spec() -> bool {
        false
    }

    open spec fn from_spec(value: &PolicyVersion) -> Self {
        arbitrary()
    }
}

/// What a policy does when it fully matches a request.
#[derive(Clone, Copy, Debug, PartialEq, Eq, Structural)]
pub enum PolicyEffect {
    Deny,
    Allow,
}

impl PolicyEffect {
    /// The number that stands for this effect.
    pub open spec fn number_spec(self) -> int {
        match self {
            PolicyEffect::Deny => 0,
            PolicyEffect::Allow => 1,
        }
    }

    /// The name of this effect in documents.
    pub open spec fn name_spec(self) -> Seq<char> {
        match self {
            PolicyEffect::Deny => "DENY"@,
            PolicyEffect::Allow => "ALLOW"@,
        }
    }

    /// The number that stands for this effect.
    pub fn number(&self) -> (n: i32)
        ensures
            n == self.number_spec(),
    {
        match self {
            PolicyEffect::Deny => 0,
            PolicyEffect::Allow => 1,
        }
    }

    /// The name of this effect in documents.
    pub fn name(&self) -> (name: String)
        ensures
            name@ == self.name_spec(),
    {
        match self {
            PolicyEffect::Deny => "DENY".to_owned(),
            PolicyEffect::Allow => "ALLOW".to_owned(),
        }
    }
}

impl PartialEq<i32> for PolicyEffect {
    fn eq(&self, other: &i32) -> (r: bool) {
        self.number() == *other
    }
}

impl PartialEqSpecImpl<i32> for PolicyEffect {
    open spec fn obeys_eq_spec() -> bool {
        true
    }

    /// An effect equals the number that stands for it.
    open spec fn eq_spec(&self, other: &i32) -> bool {
        self.number_spec() == *other
    }
}

impl From<&PolicyEffect> for Value {
    fn from(value: &PolicyEffect) -> (json: Self)
        ensures
            json_value(json) == Json::Text(value.name_spec()),
    {
        text(value.name())
    }
}

impl FromSpecImpl<&PolicyEffect> for Value {
    open spec fn obeys_from_spec() -> bool {
        false
    }

    open spec fn from_spec(value: &PolicyEffect) -> Self {
        arbitrary()
    }
}

} // verus!
