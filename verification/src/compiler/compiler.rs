//! Builds the matchers of a policy from its patterns.

use crate::compiler::compiled_policy::{sources, CompiledPolicy};
use crate::err::Error;
use crate::utils::glob_to_regex::{from_string, regex_source};
use crate::utils::matcher::{regex_compiles, Matcher};
use crate::utils::text::{has_text, texts};
use vstd::prelude::*;

verus! {

/// The regular expressions for a list of globs, in order.
pub open spec fn regex_sources(globs: Seq<Seq<char>>) -> Seq<Seq<char>> {
    globs.map_values(|glob: Seq<char>| regex_source(glob))
}

/// The pattern that stands for every resource.
pub open spec fn any_resource() -> Seq<char> {
    seq!['*']
}

/// Whether a policy with these resource patterns applies to every resource:
/// it names none, or names the pattern for all of them.
pub open spec fn covers_all_resources(resources: Seq<Seq<char>>) -> bool {
    resources.len() == 0 || has_text(resources, any_resource())
}

/// Whether the engine accepts the expression of every one of `globs`.
pub open spec fn all_compile(globs: Seq<Seq<char>>) -> bool {
    forall|i: int| 0 <= i < globs.len() ==> regex_compiles(regex_source(#[trigger] globs[i]))
}

/// Whether the patterns of a policy can be compiled: the engine accepts the
/// expression of every action pattern, and of every resource pattern unless
/// the resource patterns cover every resource and are left out.
pub open spec fn can_compile(actions: Seq<Seq<char>>, resources: Seq<Seq<char>>) -> bool {
    all_compile(actions) && (covers_all_resources(resources) || all_compile(resources))
}

/// Whether `compiled` holds the matchers for these action and resource
/// globs.
pub open spec fn compiled_from(
    compiled: CompiledPolicy,
    actions: Seq<Seq<char>>,
    resources: Seq<Seq<char>>,
) -> bool {
    &&& compiled.action_patterns() == regex_sources(actions)
    &&& compiled.covers_all() == covers_all_resources(resources)
    &&& compiled.resource_patterns() == if covers_all_resources(resources) {
        Seq::empty()
    } else {
        regex_sources(resources)
    }
}

/// Compiles the patterns of policies.
pub struct Compiler {}

impl Compiler {
    /// Compiles the patterns of a policy.
    ///
    /// It succeeds exactly when the engine accepts the expression of every
    /// pattern that is compiled: every action pattern, and every resource
    /// pattern unless they cover every resource and are left out. The result
    /// then holds their matchers. When the engine refuses one, its message
    /// comes back under the generic error kind.
    pub fn compile(
        actions: &Vec<String>,
        resources: &Vec<String>,
    ) -> (r: Result<CompiledPolicy, Error>)
        ensures
            r is Ok <==> can_compile(texts(actions@), texts(resources@)),
            match r {
                Ok(compiled) => compiled_from(compiled, texts(actions@), texts(resources@)),
                Err(e) => e.is_wrapped(),
            },
    {
        let compiled_actions = match compile_all(actions) {
            Ok(matchers) => matchers,
            Err(e) => {
                return Err(e);
            },
        };
        let compiled_resources = if names_any_resource(resources) {
            Vec::new()
        } else {
            match compile_all(resources) {
                Ok(matchers) => matchers,
                Err(e) => {
                    return Err(e);
                },
            }
        };
        proof {
            if covers_all_resources(texts(resources@)) {
                assert(sources(compiled_resources@) =~= Seq::<Seq<char>>::empty());
            }
        }
        Ok(CompiledPolicy::new(compiled_actions, compiled_resources))
    }
}

/// Whether one of `resources` is the pattern for every resource.
fn names_any_resource(resources: &Vec<String>) -> (found: bool)
    ensures
        found == has_text(texts(resources@), any_resource()),
{
    let star = "*".to_owned();
    proof {
        reveal_strlit("*");
    }
    let mut i: usize = 0;
    while i < resources.len()
        invariant
            i <= resources.len(),
            star@ == any_resource(),
            forall|j: int| 0 <= j < i ==> texts(resources@)[j] != any_resource(),
        decreases resources.len() - i,
    {
        if resources[i] == star {
            assert(texts(resources@)[i as int] == any_resource());
            return true;
        }
        i += 1;
    }
    false
}

/// Compiles every glob, in order, and stops at the first that the engine
/// refuses.
fn compile_all(globs: &Vec<String>) -> (r: Result<Vec<Matcher>, Error>)
    ensures
        r is Ok <==> all_compile(texts(globs@)),
        match r {
            Ok(matchers) => sources(matchers@) == regex_sources(texts(globs@)),
            Err(e) => e.is_wrapped(),
        },
{
    let mut matchers: Vec<Matcher> = Vec::new();
    let mut i: usize = 0;
    while i < globs.len()
        invariant
            i <= globs.len(),
            matchers@.len() == i,
            forall|j: int| 0 <= j < i ==> (#[trigger] matchers@[j])@ == regex_source(globs@[j]@),
            forall|j: int| 0 <= j < i ==> regex_compiles(regex_source(#[trigger] texts(globs@)[j])),
        decreases globs.len() - i,
    {
        match from_string(globs[i].as_str()) {
            Ok(m) => {
                matchers.push(m);
            },
            Err(e) => {
                assert(!regex_compiles(regex_source(texts(globs@)[i as int])));
                return Err(e);
            },
        }
        i += 1;
    }
    Ok(matchers)
}

} // verus!
