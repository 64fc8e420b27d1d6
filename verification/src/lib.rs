//! Queries for the resources of a Kubernetes cluster.
//!
//! A [`ResourceQuery`] names the kinds of resource to fetch, the scope to
//! fetch them in and the filters that a record must meet. The library decides
//! what is fetched, which of the fetched records are kept, and in which order
//! the kept records come out; fetching itself, and resolving a filter's path
//! on a record, is the caller's part.
pub mod constant;
pub mod error;
pub mod json;
pub mod kubernetes;
pub mod matcher;
pub mod resource;
pub mod resource_collection;
pub mod resource_type;
pub mod text;

pub use error::{KubeQueryError, KubeQueryResult};
pub use kubernetes::ResourceQuery;
pub use resource_type::ResourceType;
