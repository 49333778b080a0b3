//! Glob patterns, written as anchored regular expressions.

use crate::err::{Error, ErrorKind, ErrorSource};
use crate::utils::matcher::{escape_char, escaped_literal, regex_compiles, Matcher};
use vstd::prelude::*;
use vstd::string::StringExecFns;

verus! {

/// What one character of a glob becomes: `*` stands for any run of
/// characters, `?` for any one character, and every other character for
/// itself.
pub open spec fn glob_piece(c: char) -> Seq<char> {
    if c == '*' {
        seq!['.', '*']
    } else if c == '?' {
        seq!['.']
    } else {
        escaped_literal(c)
    }
}

/// The pieces of all characters of `glob`, in order.
pub open spec fn glob_body(glob: Seq<char>) -> Seq<char>
    decreases glob.len(),
{
    if glob.len() == 0 {
        Seq::empty()
    } else {
        glob_body(glob.drop_last()) + glob_piece(glob.last())
    }
}

/// What opens the expression of every glob: the flag that lets `.` stand for a
/// line break too, and the anchor at the start of the candidate.
pub open spec fn regex_prefix() -> Seq<char> {
    seq!['(', '?', 's', ')', '^']
}

/// The regular expression for `glob`: its body, anchored at both ends so that
/// it has to cover the whole candidate.
pub open spec fn regex_source(glob: Seq<char>) -> Seq<char> {
    regex_prefix() + glob_body(glob) + seq!['$']
}

/// The expression for a glob is anchored at both ends: it opens with the
/// prefix, which ends in the anchor at the start, it closes with the anchor
/// at the end, and what lies between is the body of the glob and nothing
/// else.
pub proof fn lemma_regex_source_is_anchored(glob: Seq<char>)
    ensures
        regex_source(glob).len() == regex_prefix().len() + glob_body(glob).len() + 1,
        regex_source(glob).subrange(0, regex_prefix().len() as int) == regex_prefix(),
        regex_source(glob).subrange(
            regex_prefix().len() as int,
            regex_source(glob).len() - 1,
        ) == glob_body(glob),
        regex_prefix().last() == '^',
        regex_source(glob).last() == '$',
{
}

/// The body of a glob is written piece by piece: the body of two globs put
/// together is the body of the first followed by the body of the second.
pub proof fn lemma_glob_body_of_concatenation(first: Seq<char>, second: Seq<char>)
    ensures
        glob_body(first + second) == glob_body(first) + glob_body(second),
    decreases second.len(),
{
    if second.len() > 0 {
        lemma_glob_body_of_concatenation(first, second.drop_last());
        assert((first + second).drop_last() =~= first + second.drop_last());
    }
}

/// Writes the regular expression for `glob`.
pub fn to_regex_source(glob: &str) -> (source: String)
    ensures
        source@ == regex_source(glob@),
{
    let mut source = "(?s)^".to_owned();
    proof {
        reveal_strlit("(?s)^");
    }
    for c in it: glob.chars()
        invariant
            it.seq() == glob@,
            source@ == regex_prefix() + glob_body(glob@.take(it.index() as int)),
    {
        let ghost done = glob@.take(it.index() as int);
        let ghost next = glob@.take(it.index() + 1);
        if c == '*' {
            source.append(".*");
        } else if c == '?' {
            source.append(".");
        } else {
            let literal = escape_char(c);
            source.append(literal.as_str());
        }
        proof {
            reveal_strlit(".*");
            reveal_strlit(".");
            assert(next.drop_last() =~= done);
        }
    }
    proof {
        reveal_strlit("$");
        assert(glob@.take(glob@.len() as int) =~= glob@);
    }
    source.append("$");
    source
}

/// What becomes of the engine's answer to a compilation: a matcher is handed
/// on as it is, and a refusal becomes an error of the generic kind that
/// carries the engine's message.
pub fn matcher_or_error(answer: Result<Matcher, String>) -> (r: Result<Matcher, Error>)
    ensures
        match answer {
            Ok(matcher) => r matches Ok(m) && m == matcher,
            Err(message) => r matches Err(e) && e.kind_spec() == ErrorKind::UnknownError
                && e.source_spec() == ErrorSource::Message(message),
        },
{
    match answer {
        Ok(matcher) => Ok(matcher),
        Err(message) => Err(Error::from(message)),
    }
}

/// Compiles `glob` into a matcher for whole candidates.
///
/// It succeeds exactly when the engine accepts the expression of the glob,
/// and the matcher is then that of `regex_source(glob)`. When the engine
/// refuses, its message comes back under the generic error kind.
pub fn from_string(glob: &str) -> (r: Result<Matcher, Error>)
    ensures
        r is Ok <==> regex_compiles(regex_source(glob@)),
        match r {
            Ok(m) => m@ == regex_source(glob@),
            Err(e) => e.is_wrapped(),
        },
{
    matcher_or_error(Matcher::compile(to_regex_source(glob)))
}

} // verus!
