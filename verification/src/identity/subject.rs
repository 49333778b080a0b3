//! Principals that may carry a policy of their own.

use crate::identity::role::Role;
use crate::policy::policy::{CompletePolicy, PolicyView, ToJson};
use crate::utils::json::{json_value, null, Json};
use serde_json::Value;
use vstd::prelude::*;

verus! {

/// What an optional policy says.
pub open spec fn optional_view(policy: Option<CompletePolicy>) -> Option<PolicyView> {
    match policy {
        Some(p) => Some(p@),
        None => None,
    }
}

/// The document of an optional policy: its object, or null.
pub open spec fn optional_policy_json(policy: Option<PolicyView>) -> Json {
    match policy {
        Some(p) => Json::Object(p.json_spec()),
        None => Json::Null,
    }
}

/// A principal: it gives verdicts from its linked policies and may carry a
/// policy of its own.
pub trait Subject: Role + ToJson {
    /// The inline policy of the subject, if it has one.
    spec fn inline_spec(&self) -> Option<PolicyView>;

    /// Returns the inline policy associate with the subject.
    fn get_inline_policy(&self) -> (policy: Option<&CompletePolicy>)
        ensures
            match policy {
                Some(p) => self.inline_spec() == Some(p@),
                None => self.inline_spec() is None,
            },
    ;
}

/// Writes an optional policy as a document.
pub fn inline_policy_json(policy: &Option<CompletePolicy>) -> (value: Value)
    ensures
        json_value(value) == optional_policy_json(optional_view(*policy)),
{
    match policy {
        Some(p) => p.to_value(),
        None => null(),
    }
}

} // verus!
