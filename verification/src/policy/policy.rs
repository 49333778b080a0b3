//! Complete and partial policies.

use crate::compiler::compiled_policy::CompiledPolicy;
use crate::compiler::compiler::{
    any_resource, can_compile, compiled_from, covers_all_resources, Compiler,
};
use crate::err::Error;
use crate::policy::match_result::{evaluate, MatchResult, MatchResultView};
use crate::policy::{PolicyEffect, PolicyVersion};
use crate::utils::json::{
    json_fields, json_text, json_value, no_fields, number, object, object_insert, object_new,
    object_text, text, text_list, text_list_spec, Json,
};
use crate::utils::text::{clone_strings, has_text, texts};
use serde_json::{Map as JsonMap, Value};
use vstd::prelude::*;
use vstd::std_specs::convert::FromSpecImpl;

verus! {

/// What can be written as a JSON object.
pub trait ToJson {
    /// The fields of the object that stands for this value.
    spec fn json_spec(&self) -> Map<Seq<char>, Json>;

    /// Return a JSON value representing the policy
    fn to_json(&self) -> (fields: JsonMap<String, Value>)
        ensures
            json_fields(fields) == self.json_spec(),
    ;

    /// Gets the JSON string value
    fn to_json_string(&self) -> (s: String)
        ensures
            s@ == json_text(self.json_spec()),
    {
        object_text(&self.to_json())
    }

    /// Performs the conversion.
    fn to_value(&self) -> (value: Value)
        ensures
            json_value(value) == Json::Object(self.json_spec()),
    {
        object(self.to_json())
    }
}

/// Policy trait.
/// This is the main common interface for all the policy implementations
pub trait Policy: ToJson {
    /// Whether the policy is complete.
    spec fn complete_spec(&self) -> bool;

    /// Return true if the policy is complete.
    ///
    /// The evaluation result will return "ALLOWED" or "DENIED" if
    /// the policy is complete.
    ///
    /// If the policy is not complete, the evaluation result can be "ABSTAIN".
    fn complete(&self) -> (c: bool)
        ensures
            c == self.complete_spec(),
    ;
}

/// Represents a policy that can be matched against
/// action and resource identifiers
pub trait MatchablePolicy: Policy {
    /// The effect of the policy.
    spec fn effect_spec(&self) -> PolicyEffect;

    /// The action patterns of the policy.
    spec fn actions_spec(&self) -> Seq<Seq<char>>;

    /// The resource patterns of the policy.
    spec fn resources_spec(&self) -> Seq<Seq<char>>;

    /// Gets the policy effect
    fn get_effect(&self) -> (effect: PolicyEffect)
        ensures
            effect == self.effect_spec(),
    ;

    /// Calculate if this policy is matching
    fn matching(&self, action: Option<&str>, resource: Option<&str>) -> (result: MatchResult)
        ensures
            result@ == evaluate(
                self.effect_spec(),
                self.actions_spec(),
                self.resources_spec(),
                optional_text(action),
                optional_text(resource),
            ),
    ;

    /// Gets the action of the policy.
    fn get_actions(&self) -> (actions: Vec<String>)
        ensures
            texts(actions@) == self.actions_spec(),
    ;

    /// Gets the resources of the policy.
    fn get_resources(&self) -> (resources: Vec<String>)
        ensures
            texts(resources@) == self.resources_spec(),
    ;
}

/// The text of an optional string.
pub open spec fn optional_text(s: Option<&str>) -> Option<Seq<char>> {
    match s {
        Some(s) => Some(s@),
        None => None,
    }
}

/// What a partial policy says: its version and effect, and for each axis
/// the patterns that are still to be checked, if any.
pub struct PartialPolicyView {
    pub version: PolicyVersion,
    pub effect: PolicyEffect,
    pub actions: Option<Seq<Seq<char>>>,
    pub resources: Option<Seq<Seq<char>>>,
}

/// Partial policy struct
/// Actions and Resources can be optional
#[derive(Debug)]
pub struct PartialPolicy {
    pub version: PolicyVersion,
    pub effect: PolicyEffect,
    pub actions: Option<Vec<String>>,
    pub resources: Option<Vec<String>>,
}

/// The texts of an optional list of strings.
pub open spec fn optional_texts(list: Option<Vec<String>>) -> Option<Seq<Seq<char>>> {
    match list {
        Some(strings) => Some(texts(strings@)),
        None => None,
    }
}

impl View for PartialPolicy {
    type V = PartialPolicyView;

    open spec fn view(&self) -> PartialPolicyView {
        PartialPolicyView {
            version: self.version,
            effect: self.effect,
            actions: optional_texts(self.actions),
            resources: optional_texts(self.resources),
        }
    }
}

impl PartialPolicyView {
    /// The partial policy of the first version that allows and leaves no
    /// axis open.
    pub open spec fn default() -> PartialPolicyView {
        PartialPolicyView {
            version: PolicyVersion::Version1,
            effect: PolicyEffect::Allow,
            actions: None,
            resources: None,
        }
    }

    /// The fields of the object that stands for this partial policy: the
    /// version and the effect always, each axis only while it is open.
    pub open spec fn json_spec(self) -> Map<Seq<char>, Json> {
        let base = no_fields()
            .insert("version"@, Json::Number(self.version.number_spec()))
            .insert("effect"@, Json::Text(self.effect.name_spec()));
        let with_actions = match self.actions {
            Some(actions) => base.insert("actions"@, text_list_spec(actions)),
            None => base,
        };
        match self.resources {
            Some(resources) => with_actions.insert("resources"@, text_list_spec(resources)),
            None => with_actions,
        }
    }
}

impl PartialPolicy {
    /// Default partial policy.
    pub fn default() -> (p: PartialPolicy)
        ensures
            p@ == PartialPolicyView::default(),
    {
        PartialPolicy {
            version: PolicyVersion::Version1,
            effect: PolicyEffect::Allow,
            actions: Option::None,
            resources: Option::None,
        }
    }

    /// Resets the partial policy.
    pub fn reset(&mut self)
        ensures
            final(self)@ == (PartialPolicyView {
                version: PolicyVersion::Version1,
                effect: old(self)@.effect,
                actions: None,
                resources: None,
            }),
    {
        self.version = PolicyVersion::Version1;
        self.actions = Option::None;
        self.resources = Option::None;
    }
}

impl Clone for PartialPolicy {
    fn clone(&self) -> (copy: Self)
        ensures
            copy@ == self@,
    {
        PartialPolicy {
            version: self.version,
            effect: self.effect,
            actions: match &self.actions {
                Some(actions) => Some(clone_strings(actions)),
                None => None,
            },
            resources: match &self.resources {
                Some(resources) => Some(clone_strings(resources)),
                None => None,
            },
        }
    }
}

impl ToJson for PartialPolicy {
    open spec fn json_spec(&self) -> Map<Seq<char>, Json> {
        self@.json_spec()
    }

    fn to_json(&self) -> (fields: JsonMap<String, Value>) {
        let mut result = object_new();
        object_insert(&mut result, "version".to_owned(), number(self.version.number()));
        object_insert(&mut result, "effect".to_owned(), text(self.effect.name()));

        match &self.actions {
            Some(actions) => {
                object_insert(&mut result, "actions".to_owned(), text_list(actions));
            },
            None => {},
        }

        match &self.resources {
            Some(resources) => {
                object_insert(&mut result, "resources".to_owned(), text_list(resources));
            },
            None => {},
        }

        result
    }
}

impl From<PartialPolicy> for Value {
    /// The object that stands for the partial policy.
    fn from(policy: PartialPolicy) -> (value: Self)
        ensures
            json_value(value) == Json::Object(policy@.json_spec()),
    {
        policy.to_value()
    }
}

impl FromSpecImpl<PartialPolicy> for Value {
    open spec fn obeys_from_spec() -> bool {
        false
    }

    open spec fn from_spec(policy: PartialPolicy) -> Self {
        arbitrary()
    }
}

impl Policy for PartialPolicy {
    open spec fn complete_spec(&self) -> bool {
        false
    }

    fn complete(&self) -> (c: bool) {
        false
    }
}

/// What a complete policy says.
pub struct PolicyView {
    pub id: Seq<char>,
    pub version: PolicyVersion,
    pub effect: PolicyEffect,
    pub actions: Seq<Seq<char>>,
    pub resources: Seq<Seq<char>>,
}

impl PolicyView {
    /// The fields of the object that stands for this policy.
    pub open spec fn json_spec(self) -> Map<Seq<char>, Json> {
        no_fields()
            .insert("id"@, Json::Text(self.id))
            .insert("version"@, Json::Number(self.version.number_spec()))
            .insert("effect"@, Json::Text(self.effect.name_spec()))
            .insert("actions"@, text_list_spec(self.actions))
            .insert("resources"@, text_list_spec(self.resources))
    }

    /// The result of evaluating this policy against a request.
    pub open spec fn evaluate(
        self,
        action: Option<Seq<char>>,
        resource: Option<Seq<char>>,
    ) -> MatchResultView {
        evaluate(self.effect, self.actions, self.resources, action, resource)
    }
}

/// The resource patterns that a policy keeps: those it was given, or the
/// pattern for every resource when it was given none.
pub open spec fn stored_resources(resources: Seq<Seq<char>>) -> Seq<Seq<char>> {
    if resources.len() == 0 {
        seq![any_resource()]
    } else {
        resources
    }
}

/// Whether a policy can be built from these patterns: there is at least one
/// action pattern, and the engine accepts the expression of every pattern
/// that is compiled for the policy.
pub open spec fn can_construct(actions: Seq<Seq<char>>, resources: Seq<Seq<char>>) -> bool {
    actions.len() > 0 && can_compile(actions, stored_resources(resources))
}

/// A policy that is given no resource pattern, or the pattern for every
/// resource among others, keeps resource patterns that cover every resource.
pub proof fn lemma_stored_resources_cover_all(resources: Seq<Seq<char>>)
    ensures
        covers_all_resources(stored_resources(resources)) <==> resources.len() == 0 || has_text(
            resources,
            any_resource(),
        ),
{
    if resources.len() == 0 {
        assert(stored_resources(resources)[0] == any_resource());
    }
}

/// Represents a complete policy which can be matched completely
pub struct CompletePolicy {
    id: String,
    version: PolicyVersion,
    effect: PolicyEffect,
    actions: Vec<String>,
    resources: Vec<String>,
    compiled_policy: CompiledPolicy,
}

impl View for CompletePolicy {
    type V = PolicyView;

    closed spec fn view(&self) -> PolicyView {
        PolicyView {
            id: self.id@,
            version: self.version,
            effect: self.effect,
            actions: texts(self.actions@),
            resources: texts(self.resources@),
        }
    }
}

impl CompletePolicy {
    /// A complete policy names at least one action and one resource
    /// pattern, and holds the matchers compiled from its patterns.
    #[verifier::type_invariant]
    closed spec fn well_formed(&self) -> bool {
        &&& self.actions@.len() > 0
        &&& self.resources@.len() > 0
        &&& compiled_from(self.compiled_policy, texts(self.actions@), texts(self.resources@))
    }

    /// Get a new policy object
    ///
    /// A policy without actions is refused. A policy without resources
    /// applies to every resource. The patterns are compiled here, once.
    /// Construction succeeds exactly when there is an action and the engine
    /// accepts the expression of every pattern that is compiled; when the
    /// engine refuses one, its message comes back under the generic error
    /// kind.
    pub fn new(
        id: String,
        version: PolicyVersion,
        effect: PolicyEffect,
        actions: Vec<String>,
        resources: Vec<String>,
    ) -> (r: Result<CompletePolicy, Error>)
        ensures
            r is Ok <==> can_construct(texts(actions@), texts(resources@)),
            match r {
                Ok(policy) => policy@ == (PolicyView {
                    id: id@,
                    version,
                    effect,
                    actions: texts(actions@),
                    resources: stored_resources(texts(resources@)),
                }),
                Err(e) => if actions@.len() == 0 {
                    e.is_actions_cannot_be_empty()
                } else {
                    e.is_wrapped()
                },
            },
    {
        if actions.is_empty() {
            return Err(Error::actions_cannot_be_empty());
        }
        let resources = if resources.is_empty() {
            let mut all: Vec<String> = Vec::new();
            all.push("*".to_owned());
            proof {
                reveal_strlit("*");
                assert(all@[0]@ =~= any_resource());
                assert(texts(all@) =~= seq![any_resource()]);
            }
            all
        } else {
            resources
        };

        match Compiler::compile(&actions, &resources) {
            Ok(compiled_policy) => Ok(
                CompletePolicy { id, version, effect, actions, resources, compiled_policy },
            ),
            Err(e) => Err(e),
        }
    }

    /// The identifier of the policy.
    pub fn id(&self) -> (id: &String)
        ensures
            id@ == self@.id,
    {
        &self.id
    }

    /// The version of the policy.
    pub fn version(&self) -> (version: PolicyVersion)
        ensures
            version == self@.version,
    {
        self.version
    }

    /// The effect of the policy.
    pub fn effect(&self) -> (effect: PolicyEffect)
        ensures
            effect == self@.effect,
    {
        self.effect
    }

    /// The action patterns of the policy; there is at least one.
    pub fn actions(&self) -> (actions: &Vec<String>)
        ensures
            texts(actions@) == self@.actions,
            actions@.len() > 0,
    {
        proof {
            use_type_invariant(self);
        }
        &self.actions
    }

    /// The resource patterns of the policy; there is at least one.
    pub fn resources(&self) -> (resources: &Vec<String>)
        ensures
            texts(resources@) == self@.resources,
            resources@.len() > 0,
    {
        proof {
            use_type_invariant(self);
        }
        &self.resources
    }
}

impl Policy for CompletePolicy {
    open spec fn complete_spec(&self) -> bool {
        true
    }

    fn complete(&self) -> (c: bool) {
        true
    }
}

impl ToJson for CompletePolicy {
    open spec fn json_spec(&self) -> Map<Seq<char>, Json> {
        self@.json_spec()
    }

    fn to_json(&self) -> (fields: JsonMap<String, Value>) {
        let mut result = object_new();
        object_insert(&mut result, "id".to_owned(), text(self.id.clone()));
        object_insert(&mut result, "version".to_owned(), number(self.version.number()));
        object_insert(&mut result, "effect".to_owned(), text(self.effect.name()));
        object_insert(&mut result, "actions".to_owned(), text_list(&self.actions));
        object_insert(&mut result, "resources".to_owned(), text_list(&self.resources));

        result
    }
}

impl MatchablePolicy for CompletePolicy {
    open spec fn effect_spec(&self) -> PolicyEffect {
        self@.effect
    }

    open spec fn actions_spec(&self) -> Seq<Seq<char>> {
        self@.actions
    }

    open spec fn resources_spec(&self) -> Seq<Seq<char>> {
        self@.resources
    }

    fn get_effect(&self) -> (effect: PolicyEffect) {
        self.effect()
    }

    fn matching(&self, action: Option<&str>, resource: Option<&str>) -> (result: MatchResult) {
        proof {
            use_type_invariant(self);
        }
        let mut result = MatchResult::new();
        let compiled = &self.compiled_policy;

        match action {
            Some(a) => {
                result.update_action(compiled.match_action(a));
                result._update(self);
            },
            None => {},
        }

        if compiled.all_resources() {
            result.update_resource(true);
            result._update(self);
        } else if resource.is_some() {
            let m = compiled.match_resource(resource);
            if m.is_some() {
                let is_match = m.unwrap();
                result.update_resource(is_match);
                result._update(self);
            }
        }

        result
    }

    fn get_actions(&self) -> (actions: Vec<String>)
        ensures
            actions@.len() > 0,
    {
        clone_strings(self.actions())
    }

    fn get_resources(&self) -> (resources: Vec<String>)
        ensures
            resources@.len() > 0,
    {
        clone_strings(self.resources())
    }
}

} // verus!
