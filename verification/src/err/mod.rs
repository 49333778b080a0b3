//! Errors raised while constructing policies.

use vstd::prelude::*;
use vstd::std_specs::convert::FromSpecImpl;

verus! {

/// The closed set of failure kinds, in the order of their numbers.
#[derive(Clone, Copy, Debug, PartialEq, Eq, PartialOrd, Ord, Hash, Structural)]
pub enum ErrorKind {
    UnknownError,
    ActionsCannotBeEmptyError,
    UnknownPolicyVersionError,
}

impl ErrorKind {
    /// The number that stands for this kind.
    pub open spec fn number_spec(self) -> int {
        match self {
            ErrorKind::UnknownError => -1,
            ErrorKind::ActionsCannotBeEmptyError => 1,
            ErrorKind::UnknownPolicyVersionError => 2,
        }
    }

    /// The number that stands for this kind.
    pub fn number(&self) -> (n: i32)
        ensures
            n == self.number_spec(),
    {
        match self {
            ErrorKind::UnknownError => -1,
            ErrorKind::ActionsCannotBeEmptyError => 1,
            ErrorKind::UnknownPolicyVersionError => 2,
        }
    }
}

/// Raised when an integer does not name a known policy version.
#[derive(Clone, Copy, Debug, PartialEq, Eq, Structural)]
pub struct UnknownPolicyVersionError {
    pub version: i32,
}

impl UnknownPolicyVersionError {
    /// The refusal of `version`.
    pub fn new(version: i32) -> (e: Self)
        ensures
            e.version == version,
    {
        UnknownPolicyVersionError { version }
    }

    /// The text shown for this error; it does not depend on the version.
    pub open spec fn message_spec() -> Seq<char> {
        "Unknown policy version"@
    }

    /// The text shown for this error.
    pub fn to_string(&self) -> (s: String)
        ensures
            s@ == Self::message_spec(),
    {
        "Unknown policy version".to_owned()
    }
}

/// What an [`Error`] carries besides its kind.
#[derive(Debug)]
pub enum ErrorSource {
    /// A plain message, as given by the failing collaborator.
    Message(String),
    /// The rejected version number.
    UnknownPolicyVersion(UnknownPolicyVersionError),
}

impl ErrorSource {
    /// The text of this source.
    pub open spec fn message_spec(self) -> Seq<char> {
        match self {
            ErrorSource::Message(m) => m@,
            ErrorSource::UnknownPolicyVersion(_) => UnknownPolicyVersionError::message_spec(),
        }
    }

    /// The text of this source.
    pub fn to_string(&self) -> (s: String)
        ensures
            s@ == self.message_spec(),
    {
        match self {
            ErrorSource::Message(m) => m.clone(),
            ErrorSource::UnknownPolicyVersion(e) => e.to_string(),
        }
    }
}

/// A failure: its kind and the source that explains it.
#[derive(Debug)]
pub struct Error {
    kind: ErrorKind,
    inner: ErrorSource,
}

impl Error {
    /// The kind of the failure.
    pub closed spec fn kind_spec(self) -> ErrorKind {
        self.kind
    }

    /// What the failure carries besides its kind.
    pub closed spec fn source_spec(self) -> ErrorSource {
        self.inner
    }

    /// The text of the failure: that of its source.
    pub open spec fn message_spec(self) -> Seq<char> {
        self.source_spec().message_spec()
    }

    /// Whether this is the refusal of a policy without actions.
    pub open spec fn is_actions_cannot_be_empty(self) -> bool {
        &&& self.kind_spec() == ErrorKind::ActionsCannotBeEmptyError
        &&& self.source_spec() matches ErrorSource::Message(m)
        &&& m@ == "Actions set cannot be empty"@
    }

    /// Whether this is the refusal of a version number, and of which.
    pub open spec fn is_unknown_policy_version(self, version: i32) -> bool {
        &&& self.kind_spec() == ErrorKind::UnknownPolicyVersionError
        &&& self.source_spec() == ErrorSource::UnknownPolicyVersion(
            UnknownPolicyVersionError { version },
        )
    }

    /// Whether this is another failure, wrapped with its message.
    pub open spec fn is_wrapped(self) -> bool {
        &&& self.kind_spec() == ErrorKind::UnknownError
        &&& self.source_spec() is Message
    }

    /// A failure of the given kind with the given source.
    pub fn new(kind: ErrorKind, error: ErrorSource) -> (e: Self)
        ensures
            e.kind_spec() == kind,
            e.source_spec() == error,
    {
        Error { kind, inner: error }
    }

    /// The source of the failure.
    pub fn get_ref(&self) -> (r: Option<&ErrorSource>)
        ensures
            r == Some(&self.source_spec()),
    {
        Some(&self.inner)
    }

    /// The source of the failure, to be changed in place; the kind stays.
    pub fn get_mut(&mut self) -> (r: Option<&mut ErrorSource>)
        ensures
            r matches Some(source) && *source == old(self).source_spec()
                && final(self).source_spec() == *final(source)
                && final(self).kind_spec() == old(self).kind_spec(),
    {
        Some(&mut self.inner)
    }

    /// Gives up the failure for its source.
    pub fn into_inner(self) -> (r: Option<ErrorSource>)
        ensures
            r == Some(self.source_spec()),
    {
        Some(self.inner)
    }

    /// The kind of the failure.
    pub fn kind(&self) -> (k: ErrorKind)
        ensures
            k == self.kind_spec(),
    {
        self.kind
    }

    /// The refusal of a policy without actions.
    pub fn actions_cannot_be_empty() -> (e: Self)
        ensures
            e.is_actions_cannot_be_empty(),
    {
        Self::new(
            ErrorKind::ActionsCannotBeEmptyError,
            ErrorSource::Message("Actions set cannot be empty".to_owned()),
        )
    }

    /// The refusal of `version` as a policy version.
    pub fn unknown_policy_version(version: i32) -> (e: Self)
        ensures
            e.is_unknown_policy_version(version),
    {
        Self::new(
            ErrorKind::UnknownPolicyVersionError,
            ErrorSource::UnknownPolicyVersion(UnknownPolicyVersionError::new(version)),
        )
    }

    /// The text of the failure.
    pub fn to_string(&self) -> (s: String)
        ensures
            s@ == self.message_spec(),
    {
        self.inner.to_string()
    }
}

impl From<String> for Error {
    /// Wraps the message of any other failure under the generic kind.
    fn from(err: String) -> (e: Self)
        ensures
            e.kind_spec() == ErrorKind::UnknownError,
            e.source_spec() == ErrorSource::Message(err),
    {
        Error::new(ErrorKind::UnknownError, ErrorSource::Message(err))
    }
}

impl FromSpecImpl<String> for Error {
    open spec fn obeys_from_spec() -> bool {
        true
    }

    closed spec fn from_spec(err: String) -> Self {
        Error { kind: ErrorKind::UnknownError, inner: ErrorSource::Message(err) }
    }
}

} // verus!
