use libzephir::compiler::compiled_policy::CompiledPolicy;
use libzephir::compiler::compiler::Compiler;
use libzephir::err::ErrorKind;
use libzephir::err::ErrorSource;
use libzephir::utils::glob_to_regex::{from_string, matcher_or_error, to_regex_source};
use libzephir::utils::text::clone_strings;

fn strings(items: Vec<&str>) -> Vec<String> {
    items.into_iter().map(|s| s.to_string()).collect()
}

#[test]
fn globs_are_rewritten_piece_by_piece() {
    assert_eq!(to_regex_source(""), "(?s)^$");
    assert_eq!(to_regex_source("abc"), "(?s)^abc$");
    assert_eq!(to_regex_source("*"), "(?s)^.*$");
    assert_eq!(to_regex_source("?"), "(?s)^.$");
    assert_eq!(to_regex_source("Foo?ar"), "(?s)^Foo.ar$");
    assert_eq!(to_regex_source("*Action"), "(?s)^.*Action$");
    assert_eq!(to_regex_source("a**b??"), "(?s)^a.*.*b..$");
    assert_eq!(to_regex_source("core:Get*"), "(?s)^core:Get.*$");
    assert_eq!(to_regex_source("\u{e9}t\u{e9}"), "(?s)^\u{e9}t\u{e9}$");
}

#[test]
fn meta_characters_are_escaped() {
    assert_eq!(to_regex_source("a.b"), "(?s)^a\\.b$");
    assert_eq!(to_regex_source("\\"), "(?s)^\\\\$");
    assert_eq!(
        to_regex_source(".+()|[]{}^$#&-~"),
        "(?s)^\\.\\+\\(\\)\\|\\[\\]\\{\\}\\^\\$\\#\\&\\-\\~$"
    );
    assert_eq!(to_regex_source("%/!\"e, :_"), "(?s)^%/!\"e, :_$");
}

#[test]
fn a_matcher_accepts_what_its_glob_describes() {
    let compiled = CompiledPolicy::new(vec![from_string("a?c*").unwrap()], vec![]);
    assert_eq!(compiled.match_action("abc"), true);
    assert_eq!(compiled.match_action("abcdef"), true);
    assert_eq!(compiled.match_action("ac"), false);
    assert_eq!(compiled.match_action("xabc"), false);
}

#[test]
fn from_string_reports_what_the_engine_refuses() {
    let e = from_string(&"*".repeat(50_000)).err().unwrap();
    assert_eq!(e.kind(), ErrorKind::UnknownError);
    assert_eq!(e.to_string().is_empty(), false);
}

#[test]
fn compiled_policy_without_resource_matchers_covers_all_resources() {
    let compiled = CompiledPolicy::new(vec![from_string("Get").unwrap()], vec![]);
    assert_eq!(compiled.all_resources(), true);
    assert_eq!(compiled.match_resource(None), Some(true));
    assert_eq!(compiled.match_resource(Some("anything")), Some(true));
    assert_eq!(compiled.match_action("Get"), true);
    assert_eq!(compiled.match_action("Put"), false);
}

#[test]
fn compiled_policy_with_resource_matchers_consults_them() {
    let compiled = CompiledPolicy::new(
        vec![from_string("Get").unwrap()],
        vec![from_string("urn:a").unwrap(), from_string("urn:b:*").unwrap()],
    );
    assert_eq!(compiled.all_resources(), false);
    assert_eq!(compiled.match_resource(None), None);
    assert_eq!(compiled.match_resource(Some("urn:a")), Some(true));
    assert_eq!(compiled.match_resource(Some("urn:b:7")), Some(true));
    assert_eq!(compiled.match_resource(Some("urn:c")), Some(false));
    assert_eq!(compiled.match_resource(Some("")), Some(false));
}

#[test]
fn compiled_policy_without_action_matchers_matches_no_action() {
    let compiled = CompiledPolicy::new(vec![], vec![]);
    assert_eq!(compiled.match_action(""), false);
    assert_eq!(compiled.match_action("Get"), false);
}

#[test]
fn compiler_leaves_resources_out_when_they_cover_everything() {
    let compiled = Compiler::compile(&strings(vec!["Get"]), &strings(vec![])).unwrap();
    assert_eq!(compiled.all_resources(), true);

    let compiled = Compiler::compile(&strings(vec!["Get"]), &strings(vec!["urn:a", "*"])).unwrap();
    assert_eq!(compiled.all_resources(), true);
    assert_eq!(compiled.match_resource(Some("urn:z")), Some(true));

    let compiled = Compiler::compile(&strings(vec!["Get"]), &strings(vec!["urn:a", "**"])).unwrap();
    assert_eq!(compiled.all_resources(), false);
    assert_eq!(compiled.match_resource(Some("urn:z")), Some(true));
    assert_eq!(compiled.match_resource(None), None);

    let compiled = Compiler::compile(&strings(vec!["Get"]), &strings(vec!["urn:a"])).unwrap();
    assert_eq!(compiled.all_resources(), false);
    assert_eq!(compiled.match_resource(Some("urn:z")), Some(false));
    assert_eq!(compiled.match_resource(Some("urn:a")), Some(true));
}

#[test]
fn compiler_compiles_every_action_in_order() {
    let compiled = Compiler::compile(&strings(vec!["One", "Two*"]), &strings(vec![])).unwrap();
    assert_eq!(compiled.match_action("One"), true);
    assert_eq!(compiled.match_action("Twofold"), true);
    assert_eq!(compiled.match_action("Three"), false);
}

#[test]
fn compiler_reports_what_the_engine_refuses() {
    let huge = "?".repeat(50_000);
    let e = Compiler::compile(&strings(vec!["Get", &huge]), &strings(vec![]))
        .err()
        .unwrap();
    assert_eq!(e.kind(), ErrorKind::UnknownError);

    let e = Compiler::compile(&strings(vec!["Get"]), &strings(vec![&huge]))
        .err()
        .unwrap();
    assert_eq!(e.kind(), ErrorKind::UnknownError);
}

#[test]
fn strings_are_copied_as_they_are() {
    let list = strings(vec!["a", "", "b c"]);
    assert_eq!(clone_strings(&list), list);
    assert_eq!(clone_strings(&vec![]), Vec::<String>::new());
}

#[test]
fn a_refusal_of_the_engine_becomes_a_wrapped_error() {
    let e = matcher_or_error(Err("no such expression".to_string()))
        .err()
        .unwrap();
    assert_eq!(e.kind(), ErrorKind::UnknownError);
    assert_eq!(e.to_string(), "no such expression");
    match e.into_inner() {
        Some(ErrorSource::Message(m)) => assert_eq!(m, "no such expression"),
        _ => panic!("the message is kept"),
    }

    let e = matcher_or_error(Err(String::new())).err().unwrap();
    assert_eq!(e.kind(), ErrorKind::UnknownError);
    assert_eq!(e.to_string(), "");
}

#[test]
fn a_matcher_of_the_engine_is_handed_on() {
    let matcher = matcher_or_error(Ok(from_string("a*").unwrap())).unwrap();
    let compiled = CompiledPolicy::new(vec![matcher], vec![]);
    assert_eq!(compiled.match_action("abc"), true);
    assert_eq!(compiled.match_action("bc"), false);
}

#[test]
fn a_copy_of_a_compiled_policy_matches_as_the_first_does() {
    let compiled = Compiler::compile(
        &strings(vec!["Get*", "Put"]),
        &strings(vec!["urn:a", "urn:b:?"]),
    )
    .unwrap();
    let copy = compiled.clone();
    assert_eq!(copy.all_resources(), false);
    for action in ["Get", "GetUser", "Put", "Post", ""] {
        assert_eq!(copy.match_action(action), compiled.match_action(action));
    }
    assert_eq!(copy.match_action("GetUser"), true);
    assert_eq!(copy.match_action("Post"), false);
    for resource in [None, Some("urn:a"), Some("urn:b:7"), Some("urn:c")] {
        assert_eq!(copy.match_resource(resource), compiled.match_resource(resource));
    }
    assert_eq!(copy.match_resource(Some("urn:b:7")), Some(true));
    assert_eq!(copy.match_resource(Some("urn:c")), Some(false));

    let all = Compiler::compile(&strings(vec!["Get"]), &strings(vec![])).unwrap().clone();
    assert_eq!(all.all_resources(), true);
    assert_eq!(all.match_resource(None), Some(true));
}
