//! One fetched record, tagged with its kind.
//!
//! The records themselves are values of the Kubernetes and Istio schema crates.
//! Nothing here looks inside one: a record is carried from the place that
//! fetched it to the caller, and the tag is all that the library reads.
use crate::resource_type::ResourceType;
use k8s_openapi::api;
use vstd::prelude::*;

verus! {
/// The record type of an Istio gateway, as its schema crate defines it. Opaque here.
#[verifier::external_type_specification]
#[verifier::external_body]
pub struct ExGateway(kube_resource_extras::istio::Gateway);

/// `Clone::clone` of the record type of an Istio gateway. Nothing is claimed of the copy.
pub assume_specification[ <kube_resource_extras::istio::Gateway as Clone>::clone ](record: &kube_resource_extras::istio::Gateway) -> kube_resource_extras::istio::Gateway;
/// The record type of an Istio virtual service, as its schema crate defines it. Opaque here.
#[verifier::external_type_specification]
#[verifier::external_body]
pub struct ExVirtualService(kube_resource_extras::istio::VirtualService);

/// `Clone::clone` of the record type of an Istio virtual service. Nothing is claimed of the copy.
pub assume_specification[ <kube_resource_extras::istio::VirtualService as Clone>::clone ](record: &kube_resource_extras::istio::VirtualService) -> kube_resource_extras::istio::VirtualService;
/// The record type of an Istio destination rule, as its schema crate defines it. Opaque here.
#[verifier::external_type_specification]
#[verifier::external_body]
pub struct ExDestinationRule(kube_resource_extras::istio::DestinationRule);

/// `Clone::clone` of the record type of an Istio destination rule. Nothing is claimed of the copy.
pub assume_specification[ <kube_resource_extras::istio::DestinationRule as Clone>::clone ](record: &kube_resource_extras::istio::DestinationRule) -> kube_resource_extras::istio::DestinationRule;
/// The record type of an Istio Envoy filter, as its schema crate defines it. Opaque here.
#[verifier::external_type_specification]
#[verifier::external_body]
pub struct ExEnvoyFilter(kube_resource_extras::istio::EnvoyFilter);

/// `Clone::clone` of the record type of an Istio Envoy filter. Nothing is claimed of the copy.
pub assume_specification[ <kube_resource_extras::istio::EnvoyFilter as Clone>::clone ](record: &kube_resource_extras::istio::EnvoyFilter) -> kube_resource_extras::istio::EnvoyFilter;
/// The record type of a service, as its schema crate defines it. Opaque here.
#[verifier::external_type_specification]
#[verifier::external_body]
pub struct ExService(api::core::v1::Service);

/// `Clone::clone` of the record type of a service. Nothing is claimed of the copy.
pub assume_specification[ <api::core::v1::Service as Clone>::clone ](record: &api::core::v1::Service) -> api::core::v1::Service;
/// The record type of an ingress, as its schema crate defines it. Opaque here.
#[verifier::external_type_specification]
#[verifier::external_body]
pub struct ExIngress(api::networking::v1::Ingress);

/// `Clone::clone` of the record type of an ingress. Nothing is claimed of the copy.
pub assume_specification[ <api::networking::v1::Ingress as Clone>::clone ](record: &api::networking::v1::Ingress) -> api::networking::v1::Ingress;
/// The record type of a namespace, as its schema crate defines it. Opaque here.
#[verifier::external_type_specification]
#[verifier::external_body]
pub struct ExNamespace(api::core::v1::Namespace);

/// `Clone::clone` of the record type of a namespace. Nothing is claimed of the copy.
pub assume_specification[ <api::core::v1::Namespace as Clone>::clone ](record: &api::core::v1::Namespace) -> api::core::v1::Namespace;
/// The record type of a pod, as its schema crate defines it. Opaque here.
#[verifier::external_type_specification]
#[verifier::external_body]
pub struct ExPod(api::core::v1::Pod);

/// `Clone::clone` of the record type of a pod. Nothing is claimed of the copy.
pub assume_specification[ <api::core::v1::Pod as Clone>::clone ](record: &api::core::v1::Pod) -> api::core::v1::Pod;
/// The record type of a deployment, as its schema crate defines it. Opaque here.
#[verifier::external_type_specification]
#[verifier::external_body]
pub struct ExDeployment(api::apps::v1::Deployment);

/// `Clone::clone` of the record type of a deployment. Nothing is claimed of the copy.
pub assume_specification[ <api::apps::v1::Deployment as Clone>::clone ](record: &api::apps::v1::Deployment) -> api::apps::v1::Deployment;
/// The record type of a cron job, as its schema crate defines it. Opaque here.
#[verifier::external_type_specification]
#[verifier::external_body]
pub struct ExCronJob(api::batch::v1::CronJob);

/// `Clone::clone` of the record type of a cron job. Nothing is claimed of the copy.
pub assume_specification[ <api::batch::v1::CronJob as Clone>::clone ](record: &api::batch::v1::CronJob) -> api::batch::v1::CronJob;
/// The record type of an object of a kind that has no variant of its own, as its schema crate defines it. Opaque here.
#[verifier::external_type_specification]
#[verifier::external_body]
pub struct ExDynamicObject(kube_core::DynamicObject);

/// `Clone::clone` of the record type of an object of a kind that has no variant of its own. Nothing is claimed of the copy.
pub assume_specification[ <kube_core::DynamicObject as Clone>::clone ](record: &kube_core::DynamicObject) -> kube_core::DynamicObject;
/// A fetched record of one of the supported kinds.
#[derive(Clone, Debug)]
pub enum Resource {
    Gateway(kube_resource_extras::istio::Gateway),
    VirtualService(kube_resource_extras::istio::VirtualService),
    DestinationRule(kube_resource_extras::istio::DestinationRule),
    EnvoyFilter(kube_resource_extras::istio::EnvoyFilter),
    Service(api::core::v1::Service),
    Ingress(api::networking::v1::Ingress),
    Namespace(api::core::v1::Namespace),
    Pod(api::core::v1::Pod),
    Deployment(api::apps::v1::Deployment),
    CronJob(api::batch::v1::CronJob),
    DynamicObject(kube_core::DynamicObject),
}

impl Resource {
    /// The kind that this record is tagged with.
    pub open spec fn spec_kind(&self) -> ResourceType {
        match self {
            Resource::Gateway(_) => ResourceType::Gateway,
            Resource::VirtualService(_) => ResourceType::VirtualService,
            Resource::DestinationRule(_) => ResourceType::DestinationRule,
            Resource::EnvoyFilter(_) => ResourceType::EnvoyFilter,
            Resource::Service(_) => ResourceType::Service,
            Resource::Ingress(_) => ResourceType::Ingress,
            Resource::Namespace(_) => ResourceType::Namespace,
            Resource::Pod(_) => ResourceType::Pod,
            Resource::Deployment(_) => ResourceType::Deployment,
            Resource::CronJob(_) => ResourceType::CronJob,
            Resource::DynamicObject(_) => ResourceType::DynamicObject,
        }
    }

    /// The kind that this record is tagged with.
    #[verifier::when_used_as_spec(spec_kind)]
    pub fn kind(&self) -> (k: ResourceType)
        ensures
            k == self.spec_kind(),
    {
        match self {
            Resource::Gateway(_) => ResourceType::Gateway,
            Resource::VirtualService(_) => ResourceType::VirtualService,
            Resource::DestinationRule(_) => ResourceType::DestinationRule,
            Resource::EnvoyFilter(_) => ResourceType::EnvoyFilter,
            Resource::Service(_) => ResourceType::Service,
            Resource::Ingress(_) => ResourceType::Ingress,
            Resource::Namespace(_) => ResourceType::Namespace,
            Resource::Pod(_) => ResourceType::Pod,
            Resource::Deployment(_) => ResourceType::Deployment,
            Resource::CronJob(_) => ResourceType::CronJob,
            Resource::DynamicObject(_) => ResourceType::DynamicObject,
        }
    }
}

impl From<kube_resource_extras::istio::Gateway> for Resource {
    fn from(record: kube_resource_extras::istio::Gateway) -> (r: Self) {
        Self::Gateway(record)
    }
}

impl vstd::std_specs::convert::FromSpecImpl<kube_resource_extras::istio::Gateway> for Resource {
    open spec fn obeys_from_spec() -> bool {
        true
    }

    open spec fn from_spec(record: kube_resource_extras::istio::Gateway) -> Self {
        Self::Gateway(record)
    }
}

impl From<kube_resource_extras::istio::VirtualService> for Resource {
    fn from(record: kube_resource_extras::istio::VirtualService) -> (r: Self) {
        Self::VirtualService(record)
    }
}

impl vstd::std_specs::convert::FromSpecImpl<kube_resource_extras::istio::VirtualService> for Resource {
    open spec fn obeys_from_spec() -> bool {
        true
    }

    open spec fn from_spec(record: kube_resource_extras::istio::VirtualService) -> Self {
        Self::VirtualService(record)
    }
}

impl From<kube_resource_extras::istio::DestinationRule> for Resource {
    fn from(record: kube_resource_extras::istio::DestinationRule) -> (r: Self) {
        Self::DestinationRule(record)
    }
}

impl vstd::std_specs::convert::FromSpecImpl<kube_resource_extras::istio::DestinationRule> for Resource {
    open spec fn obeys_from_spec() -> bool {
        true
    }

    open spec fn from_spec(record: kube_resource_extras::istio::DestinationRule) -> Self {
        Self::DestinationRule(record)
    }
}

impl From<kube_resource_extras::istio::EnvoyFilter> for Resource {
    fn from(record: kube_resource_extras::istio::EnvoyFilter) -> (r: Self) {
        Self::EnvoyFilter(record)
    }
}

impl vstd::std_specs::convert::FromSpecImpl<kube_resource_extras::istio::EnvoyFilter> for Resource {
    open spec fn obeys_from_spec() -> bool {
        true
    }

    open spec fn from_spec(record: kube_resource_extras::istio::EnvoyFilter) -> Self {
        Self::EnvoyFilter(record)
    }
}

impl From<api::core::v1::Service> for Resource {
    fn from(record: api::core::v1::Service) -> (r: Self) {
        Self::Service(record)
    }
}

impl vstd::std_specs::convert::FromSpecImpl<api::core::v1::Service> for Resource {
    open spec fn obeys_from_spec() -> bool {
        true
    }

    open spec fn from_spec(record: api::core::v1::Service) -> Self {
        Self::Service(record)
    }
}

impl From<api::networking::v1::Ingress> for Resource {
    fn from(record: api::networking::v1::Ingress) -> (r: Self) {
        Self::Ingress(record)
    }
}

impl vstd::std_specs::convert::FromSpecImpl<api::networking::v1::Ingress> for Resource {
    open spec fn obeys_from_spec() -> bool {
        true
    }

    open spec fn from_spec(record: api::networking::v1::Ingress) -> Self {
        Self::Ingress(record)
    }
}

impl From<api::core::v1::Namespace> for Resource {
    fn from(record: api::core::v1::Namespace) -> (r: Self) {
        Self::Namespace(record)
    }
}

impl vstd::std_specs::convert::FromSpecImpl<api::core::v1::Namespace> for Resource {
    open spec fn obeys_from_spec() -> bool {
        true
    }

    open spec fn from_spec(record: api::core::v1::Namespace) -> Self {
        Self::Namespace(record)
    }
}

impl From<api::core::v1::Pod> for Resource {
    fn from(record: api::core::v1::Pod) -> (r: Self) {
        Self::Pod(record)
    }
}

impl vstd::std_specs::convert::FromSpecImpl<api::core::v1::Pod> for Resource {
    open spec fn obeys_from_spec() -> bool {
        true
    }

    open spec fn from_spec(record: api::core::v1::Pod) -> Self {
        Self::Pod(record)
    }
}

impl From<api::apps::v1::Deployment> for Resource {
    fn from(record: api::apps::v1::Deployment) -> (r: Self) {
        Self::Deployment(record)
    }
}

impl vstd::std_specs::convert::FromSpecImpl<api::apps::v1::Deployment> for Resource {
    open spec fn obeys_from_spec() -> bool {
        true
    }

    open spec fn from_spec(record: api::apps::v1::Deployment) -> Self {
        Self::Deployment(record)
    }
}

impl From<api::batch::v1::CronJob> for Resource {
    fn from(record: api::batch::v1::CronJob) -> (r: Self) {
        Self::CronJob(record)
    }
}

impl vstd::std_specs::convert::FromSpecImpl<api::batch::v1::CronJob> for Resource {
    open spec fn obeys_from_spec() -> bool {
        true
    }

    open spec fn from_spec(record: api::batch::v1::CronJob) -> Self {
        Self::CronJob(record)
    }
}

impl From<kube_core::DynamicObject> for Resource {
    fn from(record: kube_core::DynamicObject) -> (r: Self) {
        Self::DynamicObject(record)
    }
}

impl vstd::std_specs::convert::FromSpecImpl<kube_core::DynamicObject> for Resource {
    open spec fn obeys_from_spec() -> bool {
        true
    }

    open spec fn from_spec(record: kube_core::DynamicObject) -> Self {
        Self::DynamicObject(record)
    }
}

} // verus!
