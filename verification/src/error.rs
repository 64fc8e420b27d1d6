//! What can go wrong in a query.
use vstd::prelude::*;

verus! {

/// The error that `regex` gives for a pattern it cannot compile.
#[verifier::external_type_specification]
#[verifier::external_body]
pub struct ExRegexError(regex::Error);

/// The error of the Kubernetes client.
#[verifier::external_type_specification]
#[verifier::external_body]
pub struct ExKubeError(kube::Error);

/// Why a query, or a part of one, failed.
#[derive(Debug)]
pub enum KubeQueryError {
    /// A path expression could not be resolved on a record. The text is the
    /// resolver's account of it.
    QueryError(String),
    /// A pattern is no regular expression.
    RegexError(regex::Error),
    /// The cluster could not be reached, or refused.
    KubeError(kube::Error),
}

/// The result of an operation that may fail with a `KubeQueryError`.
pub type KubeQueryResult<T> = Result<T, KubeQueryError>;

impl From<regex::Error> for KubeQueryError {
    fn from(e: regex::Error) -> (r: Self) {
        Self::RegexError(e)
    }
}

impl vstd::std_specs::convert::FromSpecImpl<regex::Error> for KubeQueryError {
    open spec fn obeys_from_spec() -> bool {
        true
    }

    open spec fn from_spec(e: regex::Error) -> Self {
        Self::RegexError(e)
    }
}

impl From<kube::Error> for KubeQueryError {
    fn from(e: kube::Error) -> (r: Self) {
        Self::KubeError(e)
    }
}

impl vstd::std_specs::convert::FromSpecImpl<kube::Error> for KubeQueryError {
    open spec fn obeys_from_spec() -> bool {
        true
    }

    open spec fn from_spec(e: kube::Error) -> Self {
        Self::KubeError(e)
    }
}

} // verus!
