//! Compiled patterns, backed by the `regex` engine.

use vstd::prelude::*;

verus! {

/// `regex::Regex`, a compiled regular expression. Nothing is known of what
/// is inside one.
#[verifier::external_type_specification]
#[verifier::external_body]
pub struct ExRegex(regex::Regex);

/// Whether the engine accepts the regular expression written as `pattern`:
/// whether `regex::Regex::new` answers `Ok` for it. The engine accepts an
/// expression when its syntax is valid and what it compiles to stays within
/// the engine's size limit.
pub uninterp spec fn regex_compiles(pattern: Seq<char>) -> bool;

/// Whether the regular expression written as `pattern` finds a match in
/// `haystack`: what `regex::Regex::is_match` answers for the expression that
/// `regex::Regex::new` compiles from `pattern`.
pub uninterp spec fn regex_is_match(pattern: Seq<char>, haystack: Seq<char>) -> bool;

/// A compiled regular expression together with the text it was compiled
/// from. The two fields are only ever set together, by [`Matcher::compile`]
/// and, for a copy, by [`Matcher::duplicate`].
pub struct Matcher {
    source: String,
    regex: regex::Regex,
}

impl View for Matcher {
    type V = Seq<char>;

    /// The text of the regular expression.
    closed spec fn view(&self) -> Seq<char> {
        self.source@
    }
}

impl Matcher {
    /// Calls `regex::Regex::new` on `source`. It succeeds exactly when the
    /// engine accepts `source`, and the matcher then keeps `source` as its
    /// view; on failure the engine's own message comes back.
    #[verifier::external_body]
    pub(crate) fn compile(source: String) -> (r: Result<Matcher, String>)
        ensures
            r is Ok <==> regex_compiles(source@),
            r matches Ok(m) ==> m@ == source@,
    {
        match regex::Regex::new(source.as_str()) {
            Ok(regex) => Ok(Matcher { source, regex }),
            Err(e) => Err(e.to_string()),
        }
    }

    /// Calls `Clone::clone` on the `regex::Regex` of this matcher, and on the
    /// text it was compiled from: the copy is a matcher of the same
    /// expression.
    #[verifier::external_body]
    pub(crate) fn duplicate(&self) -> (copy: Matcher)
        ensures
            copy@ == self@,
    {
        Matcher { source: self.source.clone(), regex: self.regex.clone() }
    }

    /// Calls `regex::Regex::is_match`: the answer is that of the expression
    /// this matcher was compiled from, searched in `text`.
    #[verifier::external_body]
    pub(crate) fn is_match(&self, text: &str) -> (b: bool)
        ensures
            b == regex_is_match(self@, text@),
    {
        self.regex.is_match(text)
    }
}

/// Calls `regex::escape` on the one-character string `c`: a backslash is put
/// before `c` when it is one of the engine's meta characters, and `c` is
/// returned alone otherwise.
#[verifier::external_body]
pub(crate) fn escape_char(c: char) -> (escaped: String)
    ensures
        escaped@ == escaped_literal(c),
{
    let mut buf = [0u8; 4];
    regex::escape(c.encode_utf8(&mut buf))
}

/// The characters that have a meaning of their own in a regular expression
/// (the fixed set that `regex_syntax::is_meta_character` accepts).
pub open spec fn is_meta_character(c: char) -> bool {
    c == '\\' || c == '.' || c == '+' || c == '*' || c == '?' || c == '(' || c == ')' || c == '|'
        || c == '[' || c == ']' || c == '{' || c == '}' || c == '^' || c == '$' || c == '#'
        || c == '&' || c == '-' || c == '~'
}

/// The regular expression that matches exactly the character `c`.
pub open spec fn escaped_literal(c: char) -> Seq<char> {
    if is_meta_character(c) {
        seq!['\\', c]
    } else {
        seq![c]
    }
}

} // verus!
