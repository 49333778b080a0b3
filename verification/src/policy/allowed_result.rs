//! The verdict on a request, over all policies of a principal.

use crate::policy::policy::{PartialPolicy, PartialPolicyView, ToJson};
use crate::utils::json::{json_value, list, no_fields, object_insert, object_new, text, Json};
use serde_json::{Map as JsonMap, Value};
use vstd::prelude::*;

verus! {

/// Whether a request is granted, refused, or cannot be decided yet.
#[derive(Clone, Copy, Debug, PartialEq, Eq, Structural)]
pub enum AllowedOutcome {
    Allowed,
    Denied,
    Abstain,
}

impl AllowedOutcome {
    /// The name of this outcome in documents.
    pub open spec fn name_spec(self) -> Seq<char> {
        match self {
            AllowedOutcome::Allowed => "ALLOWED"@,
            AllowedOutcome::Denied => "DENIED"@,
            AllowedOutcome::Abstain => "ABSTAIN"@,
        }
    }

    /// The name of this outcome in documents.
    pub fn name(&self) -> (name: String)
        ensures
            name@ == self.name_spec(),
    {
        match self {
            AllowedOutcome::Allowed => "ALLOWED".to_owned(),
            AllowedOutcome::Denied => "DENIED".to_owned(),
            AllowedOutcome::Abstain => "ABSTAIN".to_owned(),
        }
    }
}

/// What a list of partial policies says, in order.
pub open spec fn partial_views(partials: Seq<PartialPolicy>) -> Seq<PartialPolicyView> {
    partials.map_values(|p: PartialPolicy| p@)
}

/// The array of the objects that stand for the given partial policies.
pub open spec fn partials_json(partials: Seq<PartialPolicyView>) -> Json {
    Json::List(partials.map_values(|p: PartialPolicyView| Json::Object(p.json_spec())))
}

/// What a verdict says: the outcome that the policies reached, and the
/// partial policies of those that need more of the request to decide.
pub struct AllowedResultView {
    pub outcome: AllowedOutcome,
    pub partials: Seq<PartialPolicyView>,
}

impl AllowedResultView {
    /// The fields of the object that stands for this verdict.
    pub open spec fn json_spec(self) -> Map<Seq<char>, Json> {
        no_fields()
            .insert("outcome"@, Json::Text(self.outcome.name_spec()))
            .insert("partials"@, partials_json(self.partials))
    }
}

/// The verdict on a request: the outcome that the policies reached and the
/// partial policies that are left to check.
pub struct AllowedResult {
    outcome: AllowedOutcome,
    partials: Vec<PartialPolicy>,
}

impl View for AllowedResult {
    type V = AllowedResultView;

    closed spec fn view(&self) -> AllowedResultView {
        AllowedResultView { outcome: self.outcome, partials: partial_views(self.partials@) }
    }
}

impl AllowedResult {
    /// The verdict with that outcome and those partial policies.
    pub fn new(outcome: AllowedOutcome, partials: Vec<PartialPolicy>) -> (result: Self)
        ensures
            result@ == (AllowedResultView { outcome, partials: partial_views(partials@) }),
    {
        AllowedResult { outcome, partials }
    }

    /// The verdict that refuses, with nothing left to check.
    pub fn denied() -> (result: Self)
        ensures
            result@ == (AllowedResultView {
                outcome: AllowedOutcome::Denied,
                partials: Seq::empty(),
            }),
    {
        let result = AllowedResult { outcome: AllowedOutcome::Denied, partials: Vec::new() };
        assert(result@.partials =~= Seq::empty());
        result
    }

    /// The outcome that the policies reached.
    pub fn outcome(&self) -> (outcome: AllowedOutcome)
        ensures
            outcome == self@.outcome,
    {
        self.outcome
    }

    /// The partial policies that are left to check.
    pub fn partials(&self) -> (partials: &Vec<PartialPolicy>)
        ensures
            partial_views(partials@) == self@.partials,
    {
        &self.partials
    }
}

impl ToJson for AllowedResult {
    open spec fn json_spec(&self) -> Map<Seq<char>, Json> {
        self@.json_spec()
    }

    fn to_json(&self) -> (fields: JsonMap<String, Value>) {
        let mut items: Vec<Value> = Vec::new();
        let mut i: usize = 0;
        while i < self.partials.len()
            invariant
                i <= self.partials.len(),
                items@.len() == i,
                forall|j: int|
                    0 <= j < i ==> json_value(#[trigger] items@[j]) == Json::Object(
                        self.partials@[j]@.json_spec(),
                    ),
            decreases self.partials.len() - i,
        {
            items.push(self.partials[i].to_value());
            i += 1;
        }
        assert(items@.map_values(|item: Value| json_value(item)) =~= self@.partials.map_values(
            |p: PartialPolicyView| Json::Object(p.json_spec()),
        ));

        let mut result = object_new();
        object_insert(&mut result, "outcome".to_owned(), text(self.outcome().name()));
        object_insert(&mut result, "partials".to_owned(), list(items));

        result
    }
}

} // verus!
