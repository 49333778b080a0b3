use libzephir::identity::role::allowed;
use libzephir::policy::allowed_result::{AllowedOutcome, AllowedResult};
use libzephir::policy::policy::{CompletePolicy, PartialPolicy, ToJson};
use libzephir::policy::{policy_new, PolicyEffect, PolicyVersion};
use serde_json::Value;

fn policy(
    id: &str,
    effect: PolicyEffect,
    actions: Vec<&str>,
    resources: Vec<&str>,
) -> CompletePolicy {
    policy_new(
        String::from(id),
        PolicyVersion::Version1,
        effect,
        actions.into_iter().map(String::from).collect(),
        resources.into_iter().map(String::from).collect(),
    )
    .unwrap()
}

#[test]
fn allowed_should_return_denied_on_no_policy() {
    let res = allowed(vec![], Option::None, Option::None);
    assert_eq!(res.outcome(), AllowedOutcome::Abstain);
    assert_eq!(res.partials().len(), 0);
}

#[test]
fn allowed_should_check_matching_on_all_passed_policies() {
    let res = allowed(
        vec![
            &policy("p1", PolicyEffect::Allow, vec!["get_first"], vec![]),
            &policy("p2", PolicyEffect::Allow, vec!["get_second"], vec![]),
        ],
        Option::Some(String::from("get_first")),
        Option::None,
    );

    assert_eq!(res.outcome(), AllowedOutcome::Allowed);
}

#[test]
fn allowed_should_check_matching_with_resources() {
    let res = allowed(
        vec![
            &policy("p1", PolicyEffect::Allow, vec!["get_first"], vec!["resource_one"]),
            &policy("p2", PolicyEffect::Allow, vec!["get_second"], vec!["resource_one"]),
        ],
        Option::Some(String::from("get_first")),
        Option::None,
    );

    assert_eq!(res.outcome(), AllowedOutcome::Abstain);

    let mut partial = PartialPolicy::default();
    partial.effect = PolicyEffect::Allow;
    partial.resources = Option::Some(vec![String::from("resource_one")]);

    let mut json = serde_json::Map::new();
    json.insert(String::from("outcome"), Value::from("ABSTAIN"));
    json.insert(String::from("partials"), Value::from(vec![partial.clone()]));
    assert_eq!(res.to_json(), json);
}

#[test]
fn should_return_full_deny() {
    let res = allowed(
        vec![
            &policy("p1", PolicyEffect::Deny, vec!["get_first"], vec!["resource_one"]),
            &policy("p2", PolicyEffect::Allow, vec!["get_second"], vec!["resource_one"]),
        ],
        Option::Some(String::from("get_first")),
        Option::Some(String::from("resource_onw")),
    );

    assert_eq!(res.outcome(), AllowedOutcome::Abstain);

    let mut json = serde_json::Map::new();
    json.insert(String::from("outcome"), Value::from("ABSTAIN"));
    json.insert(String::from("partials"), Value::from(Vec::<PartialPolicy>::new()));
    assert_eq!(res.to_json(), json);
}

#[test]
fn a_policy_on_all_actions_and_resources_allows() {
    let open = policy("open", PolicyEffect::Allow, vec!["*"], vec![]);
    let res = allowed(
        vec![&open],
        Some(String::from("TestAction")),
        Some(String::from("urn::resource:test")),
    );
    assert_eq!(res.outcome(), AllowedOutcome::Allowed);
    assert_eq!(res.partials().len(), 0);
    assert_eq!(res.to_json_string(), "{\"outcome\":\"ALLOWED\",\"partials\":[]}");
}

#[test]
fn deny_overrides_allow_wherever_it_stands() {
    let deny = policy("d", PolicyEffect::Deny, vec!["Get*"], vec!["urn:a"]);
    let allow = policy("a", PolicyEffect::Allow, vec!["GetUser"], vec![]);
    let partly = policy("p", PolicyEffect::Allow, vec!["Other"], vec!["urn:a"]);
    let action = || Some(String::from("GetUser"));
    let resource = || Some(String::from("urn:a"));

    for list in [
        vec![&deny, &allow, &partly],
        vec![&allow, &deny, &partly],
        vec![&allow, &partly, &deny],
        vec![&partly, &allow, &allow, &deny],
        vec![&deny],
    ] {
        let res = allowed(list, action(), resource());
        assert_eq!(res.outcome(), AllowedOutcome::Denied);
        assert_eq!(res.partials().len(), 0);
        assert_eq!(res.to_json_string(), "{\"outcome\":\"DENIED\",\"partials\":[]}");
    }

    let res = allowed(vec![&allow, &partly], action(), resource());
    assert_eq!(res.outcome(), AllowedOutcome::Allowed);
}

#[test]
fn a_deny_that_does_not_fully_match_does_not_deny() {
    let deny = policy("d", PolicyEffect::Deny, vec!["Get*"], vec!["urn:a"]);
    let allow = policy("a", PolicyEffect::Allow, vec!["GetUser"], vec![]);

    let res = allowed(
        vec![&deny, &allow],
        Some(String::from("GetUser")),
        Some(String::from("urn:b")),
    );
    assert_eq!(res.outcome(), AllowedOutcome::Allowed);
    assert_eq!(res.partials().len(), 0);

    let res = allowed(vec![&deny, &allow], Some(String::from("GetUser")), None);
    assert_eq!(res.outcome(), AllowedOutcome::Allowed);
    assert_eq!(res.partials().len(), 1);
    assert_eq!(res.partials()[0].effect, PolicyEffect::Deny);
    assert_eq!(res.partials()[0].actions, None);
    assert_eq!(res.partials()[0].resources, Some(vec![String::from("urn:a")]));
}

#[test]
fn abstain_lists_one_partial_policy_for_each_partial_match() {
    let first = policy("first", PolicyEffect::Allow, vec!["Get"], vec!["urn:a"]);
    let second = policy("second", PolicyEffect::Allow, vec!["Put"], vec!["urn:b"]);
    let third = policy("third", PolicyEffect::Deny, vec!["G?t"], vec!["urn:c", "urn:d"]);

    let res = allowed(vec![&first, &second, &third], Some(String::from("Get")), None);
    assert_eq!(res.outcome(), AllowedOutcome::Abstain);
    let partials = res.partials();
    assert_eq!(partials.len(), 2);
    assert_eq!(partials[0].effect, PolicyEffect::Allow);
    assert_eq!(partials[0].version, PolicyVersion::Version1);
    assert_eq!(partials[0].actions, None);
    assert_eq!(partials[0].resources, Some(vec![String::from("urn:a")]));
    assert_eq!(partials[1].effect, PolicyEffect::Deny);
    assert_eq!(partials[1].actions, None);
    assert_eq!(
        partials[1].resources,
        Some(vec![String::from("urn:c"), String::from("urn:d")])
    );
    assert_eq!(
        res.to_json_string(),
        "{\"outcome\":\"ABSTAIN\",\"partials\":[{\"effect\":\"ALLOW\",\"resources\":[\"urn:a\"],\"version\":1},{\"effect\":\"DENY\",\"resources\":[\"urn:c\",\"urn:d\"],\"version\":1}]}"
    );

    let res = allowed(vec![&first, &second, &third], None, Some(String::from("urn:b")));
    assert_eq!(res.outcome(), AllowedOutcome::Abstain);
    let partials = res.partials();
    assert_eq!(partials.len(), 1);
    assert_eq!(partials[0].actions, Some(vec![String::from("Put")]));
    assert_eq!(partials[0].resources, None);
}

#[test]
fn an_abstention_with_nothing_to_check_stays_an_abstention() {
    let only = policy("only", PolicyEffect::Allow, vec!["Get"], vec!["urn:a"]);
    let res = allowed(vec![&only], None, None);
    assert_eq!(res.partials().len(), 0);
    assert_eq!(res.outcome(), AllowedOutcome::Abstain);
    assert_eq!(res.to_json_string(), "{\"outcome\":\"ABSTAIN\",\"partials\":[]}");

    let res = AllowedResult::new(AllowedOutcome::Abstain, vec![]);
    assert_eq!(res.outcome(), AllowedOutcome::Abstain);
    assert_eq!(res.to_json_string(), "{\"outcome\":\"ABSTAIN\",\"partials\":[]}");

    let res = AllowedResult::new(AllowedOutcome::Denied, vec![]);
    assert_eq!(res.outcome(), AllowedOutcome::Denied);
    assert_eq!(res.to_json_string(), "{\"outcome\":\"DENIED\",\"partials\":[]}");

    let res = AllowedResult::new(AllowedOutcome::Abstain, vec![PartialPolicy::default()]);
    assert_eq!(res.outcome(), AllowedOutcome::Abstain);

    let res = AllowedResult::new(AllowedOutcome::Allowed, vec![]);
    assert_eq!(res.outcome(), AllowedOutcome::Allowed);
    assert_eq!(res.to_json_string(), "{\"outcome\":\"ALLOWED\",\"partials\":[]}");
}

#[test]
fn the_denied_result_is_a_denial_without_partials() {
    let res = AllowedResult::denied();
    assert_eq!(res.outcome(), AllowedOutcome::Denied);
    assert_eq!(res.partials().len(), 0);
    let mut json = serde_json::Map::new();
    json.insert(String::from("outcome"), Value::from("DENIED"));
    json.insert(String::from("partials"), Value::Array(vec![]));
    assert_eq!(res.to_value(), Value::Object(json));
    assert_eq!(AllowedOutcome::Denied.name(), "DENIED");
    assert_eq!(AllowedOutcome::Allowed.name(), "ALLOWED");
    assert_eq!(AllowedOutcome::Abstain.name(), "ABSTAIN");
}

#[test]
fn allow_is_kept_when_a_later_policy_only_partly_matches() {
    let allow = policy("a", PolicyEffect::Allow, vec!["Get"], vec![]);
    let partly = policy("p", PolicyEffect::Deny, vec!["Get"], vec!["urn:a"]);
    let res = allowed(vec![&allow, &partly], Some(String::from("Get")), None);
    assert_eq!(res.outcome(), AllowedOutcome::Allowed);
    assert_eq!(res.partials().len(), 1);
    assert_eq!(
        res.to_json_string(),
        "{\"outcome\":\"ALLOWED\",\"partials\":[{\"effect\":\"DENY\",\"resources\":[\"urn:a\"],\"version\":1}]}"
    );
}

#[test]
fn another_order_keeps_the_outcome_and_reorders_the_partials() {
    let allow = policy("allow", PolicyEffect::Allow, vec!["Get"], vec![]);
    let first = policy("first", PolicyEffect::Allow, vec!["Get"], vec!["urn:a"]);
    let second = policy("second", PolicyEffect::Deny, vec!["G*"], vec!["urn:b"]);
    let other = policy("other", PolicyEffect::Deny, vec!["Put"], vec![]);

    let in_order = allowed(
        vec![&allow, &first, &second, &other],
        Some(String::from("Get")),
        None,
    );
    let reordered = allowed(
        vec![&second, &other, &first, &allow],
        Some(String::from("Get")),
        None,
    );
    assert_eq!(in_order.outcome(), AllowedOutcome::Allowed);
    assert_eq!(reordered.outcome(), AllowedOutcome::Allowed);
    assert_eq!(in_order.partials().len(), 2);
    assert_eq!(reordered.partials().len(), 2);
    assert_eq!(in_order.partials()[0].to_json(), reordered.partials()[1].to_json());
    assert_eq!(in_order.partials()[1].to_json(), reordered.partials()[0].to_json());
    assert_eq!(
        in_order.partials()[0].resources,
        Some(vec![String::from("urn:a")])
    );
    assert_eq!(
        reordered.partials()[0].resources,
        Some(vec![String::from("urn:b")])
    );

    let without_allow = allowed(vec![&other, &second, &first], Some(String::from("Get")), None);
    assert_eq!(without_allow.outcome(), AllowedOutcome::Abstain);
    assert_eq!(without_allow.partials().len(), 2);
}
