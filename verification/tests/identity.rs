use libzephir::identity::group::Group;
use libzephir::identity::identity::{Identity, ToIdentityId};
use libzephir::identity::role::Role;
use libzephir::identity::subject::{inline_policy_json, Subject};
use libzephir::policy::allowed_result::AllowedOutcome;
use libzephir::policy::policy::{CompletePolicy, MatchablePolicy, ToJson};
use libzephir::policy::policy_set::{PolicySet, PolicySetHelper, PolicySetTrait};
use libzephir::policy::{policy_new, PolicyEffect, PolicyVersion};
use libzephir::utils::json::text_list;
use serde_json::Value;

fn policy(
    id: &str,
    effect: PolicyEffect,
    actions: Vec<&str>,
    resources: Vec<&str>,
) -> CompletePolicy {
    policy_new(
        String::from(id),
        PolicyVersion::Version1,
        effect,
        actions.into_iter().map(String::from).collect(),
        resources.into_iter().map(String::from).collect(),
    )
    .unwrap()
}

fn ids_of(set: &PolicySet) -> Vec<String> {
    set.ids()
}

fn member_ids(group: &Group) -> Vec<String> {
    group.identities().ids()
}

#[test]
fn policy_set_starts_empty() {
    let set = PolicySet::new();
    assert_eq!(set.len(), 0);
    assert_eq!(set.policies().len(), 0);
    assert_eq!(ids_of(&set), Vec::<String>::new());
}

#[test]
fn policy_set_insert_appends_new_ids() {
    let set = PolicySet::new()
        .insert(policy("a", PolicyEffect::Allow, vec!["1"], vec![]))
        .insert(policy("b", PolicyEffect::Allow, vec!["2"], vec![]))
        .insert(policy("c", PolicyEffect::Allow, vec!["3"], vec![]));
    assert_eq!(set.len(), 3);
    assert_eq!(ids_of(&set), vec!["a", "b", "c"]);
    let list = set.policies();
    assert_eq!(list[0].get_actions(), vec!["1"]);
    assert_eq!(list[1].get_actions(), vec!["2"]);
    assert_eq!(list[2].get_actions(), vec!["3"]);
}

#[test]
fn policy_set_insert_replaces_the_policy_with_the_same_id() {
    let set = PolicySet::new()
        .insert(policy("a", PolicyEffect::Allow, vec!["1"], vec![]))
        .insert(policy("b", PolicyEffect::Allow, vec!["2"], vec![]))
        .insert(policy("c", PolicyEffect::Allow, vec!["3"], vec![]))
        .insert(policy("b", PolicyEffect::Deny, vec!["4"], vec!["r"]));
    assert_eq!(set.len(), 3);
    assert_eq!(ids_of(&set), vec!["a", "b", "c"]);
    let list = set.policies();
    assert_eq!(list[0].get_actions(), vec!["1"]);
    assert_eq!(list[1].get_actions(), vec!["4"]);
    assert_eq!(list[1].get_effect(), PolicyEffect::Deny);
    assert_eq!(list[1].get_resources(), vec!["r"]);
    assert_eq!(list[2].get_actions(), vec!["3"]);
}

#[test]
fn policy_set_remove_deletes_by_id() {
    let set = PolicySet::new()
        .insert(policy("a", PolicyEffect::Allow, vec!["1"], vec![]))
        .insert(policy("b", PolicyEffect::Allow, vec!["2"], vec![]))
        .insert(policy("c", PolicyEffect::Allow, vec!["3"], vec![]));
    let set = set.remove("b");
    assert_eq!(ids_of(&set), vec!["a", "c"]);
    let set = set.remove("b");
    assert_eq!(ids_of(&set), vec!["a", "c"]);
    let set = set.remove("zzz");
    assert_eq!(ids_of(&set), vec!["a", "c"]);
    let set = set.remove("a").remove("c");
    assert_eq!(set.len(), 0);
    let set = set.remove("a");
    assert_eq!(set.len(), 0);
}

#[test]
fn policy_set_helper_links_and_unlinks() {
    let set = PolicySetHelper::link_policy(
        PolicySet::new(),
        policy("a", PolicyEffect::Allow, vec!["1"], vec![]),
    );
    let set = PolicySetHelper::link_policy(set, policy("b", PolicyEffect::Allow, vec!["2"], vec![]));
    let set = PolicySetHelper::link_policy(set, policy("a", PolicyEffect::Deny, vec!["3"], vec![]));
    assert_eq!(ids_of(&set), vec!["a", "b"]);
    assert_eq!(set.policies()[0].get_effect(), PolicyEffect::Deny);
    let set = PolicySetHelper::unlink_policy(set, "a");
    assert_eq!(ids_of(&set), vec!["b"]);
}

#[test]
fn identity_holds_what_it_is_given() {
    let identity = Identity::new(String::from("alice"), None);
    assert_eq!(identity.get_id(), "alice");
    assert_eq!(identity.to_identity_id(), "alice");
    assert_eq!(identity.get_inline_policy().is_none(), true);
    assert_eq!(identity.linked_policies().len(), 0);
    assert_eq!(
        identity.to_json_string(),
        "{\"id\":\"alice\",\"inline_policy\":null,\"linked_policies\":[]}"
    );
    assert_eq!(String::from("bob").to_identity_id(), "bob");
}

#[test]
fn identity_inline_policy_is_set_and_cleared_on_its_own() {
    let identity = Identity::new(
        String::from("alice"),
        Some(policy("inline", PolicyEffect::Allow, vec!["Get"], vec![])),
    )
    .add_policy(policy("linked", PolicyEffect::Deny, vec!["Put"], vec![]));
    assert_eq!(identity.get_inline_policy().unwrap().id(), "inline");
    assert_eq!(identity.linked_policies().ids(), vec!["linked"]);
    assert_eq!(
        identity.to_json_string(),
        "{\"id\":\"alice\",\"inline_policy\":{\"actions\":[\"Get\"],\"effect\":\"ALLOW\",\"id\":\"inline\",\"resources\":[\"*\"],\"version\":1},\"linked_policies\":[\"linked\"]}"
    );

    let identity = identity.set_inline_policy(policy("other", PolicyEffect::Deny, vec!["x"], vec![]));
    assert_eq!(identity.get_inline_policy().unwrap().id(), "other");
    assert_eq!(identity.get_id(), "alice");
    assert_eq!(identity.linked_policies().ids(), vec!["linked"]);

    let identity = identity.clear_inline_policy();
    assert_eq!(identity.get_inline_policy().is_none(), true);
    assert_eq!(identity.get_id(), "alice");
    assert_eq!(identity.linked_policies().ids(), vec!["linked"]);

    let identity = identity.clear_inline_policy();
    assert_eq!(identity.get_inline_policy().is_none(), true);
}

#[test]
fn identity_links_and_unlinks_policies() {
    let identity = Identity::new(String::from("alice"), None)
        .add_policy(policy("a", PolicyEffect::Allow, vec!["1"], vec![]))
        .add_policy(policy("b", PolicyEffect::Allow, vec!["2"], vec![]))
        .add_policy(policy("a", PolicyEffect::Deny, vec!["3"], vec![]));
    assert_eq!(identity.linked_policies().ids(), vec!["a", "b"]);
    assert_eq!(identity.linked_policies().policies()[0].get_actions(), vec!["3"]);
    let identity = identity.remove_policy("a");
    assert_eq!(identity.linked_policies().ids(), vec!["b"]);
    let identity = identity.remove_policy("a");
    assert_eq!(identity.linked_policies().ids(), vec!["b"]);
    assert_eq!(identity.get_id(), "alice");
    assert_eq!(
        Value::from(identity).to_string(),
        "{\"id\":\"alice\",\"inline_policy\":null,\"linked_policies\":[\"b\"]}"
    );
}

#[test]
fn identity_verdict_comes_from_linked_policies_only() {
    let identity = Identity::new(
        String::from("alice"),
        Some(policy("inline", PolicyEffect::Deny, vec!["*"], vec![])),
    )
    .add_policy(policy("linked", PolicyEffect::Allow, vec!["Get"], vec![]));

    let res = identity.allowed(Some(String::from("Get")), Some(String::from("urn:a")));
    assert_eq!(res.outcome(), AllowedOutcome::Allowed);

    let res = identity.allowed(Some(String::from("Put")), Some(String::from("urn:a")));
    assert_eq!(res.outcome(), AllowedOutcome::Abstain);
    assert_eq!(res.partials().len(), 0);

    let identity = identity.add_policy(policy("deny", PolicyEffect::Deny, vec!["G*"], vec!["urn:a"]));
    let res = identity.allowed(Some(String::from("Get")), Some(String::from("urn:a")));
    assert_eq!(res.outcome(), AllowedOutcome::Denied);
    let res = identity.allowed(Some(String::from("Get")), Some(String::from("urn:b")));
    assert_eq!(res.outcome(), AllowedOutcome::Allowed);
}

#[test]
fn group_holds_what_it_is_given() {
    let group = Group::new(String::from("admins"), None);
    assert_eq!(group.get_name(), "admins");
    assert_eq!(group.get_inline_policy().is_none(), true);
    assert_eq!(group.linked_policies().len(), 0);
    assert_eq!(member_ids(&group), Vec::<String>::new());
    assert_eq!(
        group.to_json_string(),
        "{\"id\":\"admins\",\"identities\":[],\"inline_policy\":null,\"linked_policies\":[]}"
    );
}

#[test]
fn group_add_identity_keeps_the_member_that_is_there() {
    let first = Identity::new(String::from("alice"), None)
        .add_policy(policy("first", PolicyEffect::Allow, vec!["1"], vec![]));
    let second = Identity::new(
        String::from("alice"),
        Some(policy("inline", PolicyEffect::Deny, vec!["2"], vec![])),
    )
    .add_policy(policy("second", PolicyEffect::Allow, vec!["2"], vec![]));
    let group = Group::new(String::from("admins"), None)
        .add_identity(first)
        .add_identity(Identity::new(String::from("bob"), None))
        .add_identity(second);

    assert_eq!(member_ids(&group), vec!["alice", "bob"]);
    let members = group.identities().identities();
    assert_eq!(members.len(), 2);
    assert_eq!(members[0].get_id(), "alice");
    assert_eq!(members[0].get_inline_policy().is_none(), true);
    assert_eq!(members[0].linked_policies().ids(), vec!["first"]);
    assert_eq!(members[1].get_id(), "bob");
}

#[test]
fn group_remove_identity_of_a_stranger_changes_nothing() {
    let group = Group::new(String::from("admins"), None)
        .add_identity(Identity::new(String::from("alice"), None))
        .add_identity(Identity::new(String::from("bob"), None));
    let group = group.remove_identity(String::from("carol"));
    assert_eq!(member_ids(&group), vec!["alice", "bob"]);
    let group = group.remove_identity(String::from(""));
    assert_eq!(member_ids(&group), vec!["alice", "bob"]);
    let group = group.remove_identity(Identity::new(String::from("dave"), None));
    assert_eq!(member_ids(&group), vec!["alice", "bob"]);
    assert_eq!(group.get_name(), "admins");
}

#[test]
fn group_remove_identity_removes_the_member_by_id() {
    let group = Group::new(String::from("admins"), None)
        .add_identity(Identity::new(String::from("alice"), None))
        .add_identity(Identity::new(String::from("bob"), None))
        .add_identity(Identity::new(String::from("carol"), None));
    let group = group.remove_identity(String::from("bob"));
    assert_eq!(member_ids(&group), vec!["alice", "carol"]);
    let group = group.remove_identity(Identity::new(
        String::from("alice"),
        Some(policy("p", PolicyEffect::Allow, vec!["x"], vec![])),
    ));
    assert_eq!(member_ids(&group), vec!["carol"]);
    let group = group.add_identity(Identity::new(String::from("bob"), None));
    assert_eq!(member_ids(&group), vec!["carol", "bob"]);
    let group = group.remove_identity(String::from("carol")).remove_identity(String::from("bob"));
    assert_eq!(member_ids(&group), Vec::<String>::new());
    let group = group.remove_identity(String::from("bob"));
    assert_eq!(member_ids(&group), Vec::<String>::new());
}

#[test]
fn group_policies_and_inline_policy_are_independent() {
    let group = Group::new(
        String::from("admins"),
        Some(policy("inline", PolicyEffect::Allow, vec!["Get"], vec!["urn:a"])),
    )
    .add_identity(Identity::new(String::from("alice"), None))
    .add_policy(policy("a", PolicyEffect::Allow, vec!["1"], vec![]))
    .add_policy(policy("b", PolicyEffect::Allow, vec!["2"], vec![]));
    assert_eq!(
        group.to_json_string(),
        "{\"id\":\"admins\",\"identities\":[\"alice\"],\"inline_policy\":{\"actions\":[\"Get\"],\"effect\":\"ALLOW\",\"id\":\"inline\",\"resources\":[\"urn:a\"],\"version\":1},\"linked_policies\":[\"a\",\"b\"]}"
    );

    let group = group.clear_inline_policy().remove_policy("a");
    assert_eq!(group.get_inline_policy().is_none(), true);
    assert_eq!(group.linked_policies().ids(), vec!["b"]);
    assert_eq!(member_ids(&group), vec!["alice"]);

    let group = group.set_inline_policy(policy("again", PolicyEffect::Deny, vec!["x"], vec![]));
    assert_eq!(group.get_inline_policy().unwrap().id(), "again");
    assert_eq!(group.linked_policies().ids(), vec!["b"]);
    assert_eq!(group.get_name(), "admins");
    assert_eq!(
        Value::from(group).to_string(),
        "{\"id\":\"admins\",\"identities\":[\"alice\"],\"inline_policy\":{\"actions\":[\"x\"],\"effect\":\"DENY\",\"id\":\"again\",\"resources\":[\"*\"],\"version\":1},\"linked_policies\":[\"b\"]}"
    );
}

#[test]
fn group_verdict_comes_from_linked_policies_only() {
    let group = Group::new(
        String::from("admins"),
        Some(policy("inline", PolicyEffect::Allow, vec!["*"], vec![])),
    );
    let res = group.allowed(Some(String::from("Get")), None);
    assert_eq!(res.outcome(), AllowedOutcome::Abstain);
    assert_eq!(res.partials().len(), 0);

    let group = group.add_policy(policy("a", PolicyEffect::Allow, vec!["Get"], vec!["urn:a"]));
    let res = group.allowed(Some(String::from("Get")), None);
    assert_eq!(res.outcome(), AllowedOutcome::Abstain);
    assert_eq!(res.partials().len(), 1);
    let res = group.allowed(Some(String::from("Get")), Some(String::from("urn:a")));
    assert_eq!(res.outcome(), AllowedOutcome::Allowed);
}

#[test]
fn optional_policies_are_written_as_object_or_null() {
    assert_eq!(inline_policy_json(&None), Value::Null);
    let p = policy("p", PolicyEffect::Allow, vec!["Get"], vec![]);
    let expected = p.to_value();
    assert_eq!(expected["id"], Value::from("p"));
    assert_eq!(expected, Value::Object(p.to_json()));
    assert_eq!(inline_policy_json(&Some(p)), expected);
}

#[test]
fn string_lists_are_written_as_arrays() {
    assert_eq!(text_list(&vec![]), Value::Array(vec![]));
    assert_eq!(
        text_list(&vec![String::from("a"), String::from(""), String::from("b")]),
        Value::Array(vec![Value::from("a"), Value::from(""), Value::from("b")])
    );
}
