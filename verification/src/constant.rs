//! The path expressions that the filter keywords stand for.
use vstd::prelude::*;

verus! {

/// Where a record keeps its annotations.
pub const ANNOTATION_QUERY: &'static str = ".metadata.annotations";

/// Where a record keeps its labels.
pub const LABEL_QUERY: &'static str = ".metadata.labels";

/// Where a record keeps the namespace it lives in.
pub const NAMESPACE_QUERY: &'static str = ".metadata.namespace";

} // verus!
