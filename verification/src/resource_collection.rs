//! The records that a query gave, of whatever kinds, in one sequence.
use crate::resource::Resource;
use k8s_openapi::api;
use std::ops::{Deref, DerefMut};
use vstd::prelude::*;

verus! {

/// An ordered collection of records. Records are kept in the order in which
/// they were added; none is ever dropped or merged with another.
#[derive(Debug)]
pub struct ResourceCollection {
    pub inner: Vec<Resource>,
}

impl View for ResourceCollection {
    type V = Seq<Resource>;

    open spec fn view(&self) -> Seq<Resource> {
        self.inner@
    }
}

impl ResourceCollection {
    /// Appends the records of `rc`, in their order, after the records that
    /// are already here.
    pub fn concat(&mut self, rc: ResourceCollection)
        ensures
            final(self)@ == old(self)@ + rc@,
            final(self)@.len() == old(self)@.len() + rc@.len(),
            forall|i: int| 0 <= i < old(self)@.len() ==> final(self)@[i] == old(self)@[i],
            forall|i: int| 0 <= i < rc@.len() ==> final(self)@[old(self)@.len() + i] == rc@[i],
    {
        let mut rc = rc;
        self.inner.append(&mut rc.inner);
    }
}

impl Deref for ResourceCollection {
    type Target = Vec<Resource>;

    fn deref(&self) -> (records: &Vec<Resource>)
        ensures
            records@ == self@,
    {
        &self.inner
    }
}

impl DerefMut for ResourceCollection {
    fn deref_mut(&mut self) -> (records: &mut Vec<Resource>)
        ensures
            records@ == old(self)@,
            final(self)@ == final(records)@,
    {
        &mut self.inner
    }
}

impl Default for ResourceCollection {
    /// The collection with no record.
    fn default() -> (rc: Self)
        ensures
            rc@ == Seq::<Resource>::empty(),
    {
        ResourceCollection { inner: Vec::new() }
    }
}

impl From<Vec<Resource>> for ResourceCollection {
    /// The collection of the given records, in their order.
    fn from(v: Vec<Resource>) -> (rc: Self)
        ensures
            rc@ == v@,
    {
        ResourceCollection { inner: v }
    }
}

impl vstd::std_specs::convert::FromSpecImpl<Vec<Resource>> for ResourceCollection {
    open spec fn obeys_from_spec() -> bool {
        true
    }

    open spec fn from_spec(v: Vec<Resource>) -> Self {
        ResourceCollection { inner: v }
    }
}

impl From<Vec<kube_resource_extras::istio::Gateway>> for ResourceCollection {
    /// The collection of the given gateways, each tagged as such, in their
    /// order.
    fn from(v: Vec<kube_resource_extras::istio::Gateway>) -> (rc: Self)
        ensures
            rc@ == v@.map_values(|record: kube_resource_extras::istio::Gateway| Resource::Gateway(record)),
    {
        let mut inner: Vec<Resource> = Vec::new();
        let ghost all = v@;
        for record in it: v
            invariant
                it.seq() == all,
                inner@ == all.take(it.index()).map_values(|record: kube_resource_extras::istio::Gateway| Resource::Gateway(record)),
        {
            proof {
                let at = it.index();
                assert(all.take(at + 1) =~= all.take(at).push(record));
                assert(all.take(at + 1).map_values(|record: kube_resource_extras::istio::Gateway| Resource::Gateway(record))
                    =~= all.take(at).map_values(|record: kube_resource_extras::istio::Gateway| Resource::Gateway(record)).push(
                    Resource::Gateway(record),
                ));
            }
            inner.push(Resource::from(record));
        }
        assert(all.take(all.len() as int) =~= all);
        ResourceCollection { inner }
    }
}

/// What this conversion gives is stated on `from` itself: a collection holds
/// a vector, and no vector can be written down as a mathematical value.
impl vstd::std_specs::convert::FromSpecImpl<Vec<kube_resource_extras::istio::Gateway>> for ResourceCollection {
    open spec fn obeys_from_spec() -> bool {
        false
    }

    open spec fn from_spec(v: Vec<kube_resource_extras::istio::Gateway>) -> Self {
        arbitrary()
    }
}

impl From<Vec<kube_resource_extras::istio::VirtualService>> for ResourceCollection {
    /// The collection of the given virtual services, each tagged as such, in their
    /// order.
    fn from(v: Vec<kube_resource_extras::istio::VirtualService>) -> (rc: Self)
        ensures
            rc@ == v@.map_values(|record: kube_resource_extras::istio::VirtualService| Resource::VirtualService(record)),
    {
        let mut inner: Vec<Resource> = Vec::new();
        let ghost all = v@;
        for record in it: v
            invariant
                it.seq() == all,
                inner@ == all.take(it.index()).map_values(|record: kube_resource_extras::istio::VirtualService| Resource::VirtualService(record)),
        {
            proof {
                let at = it.index();
                assert(all.take(at + 1) =~= all.take(at).push(record));
                assert(all.take(at + 1).map_values(|record: kube_resource_extras::istio::VirtualService| Resource::VirtualService(record))
                    =~= all.take(at).map_values(|record: kube_resource_extras::istio::VirtualService| Resource::VirtualService(record)).push(
                    Resource::VirtualService(record),
                ));
            }
            inner.push(Resource::from(record));
        }
        assert(all.take(all.len() as int) =~= all);
        ResourceCollection { inner }
    }
}

/// What this conversion gives is stated on `from` itself: a collection holds
/// a vector, and no vector can be written down as a mathematical value.
impl vstd::std_specs::convert::FromSpecImpl<Vec<kube_resource_extras::istio::VirtualService>> for ResourceCollection {
    open spec fn obeys_from_spec() -> bool {
        false
    }

    open spec fn from_spec(v: Vec<kube_resource_extras::istio::VirtualService>) -> Self {
        arbitrary()
    }
}

impl From<Vec<kube_resource_extras::istio::DestinationRule>> for ResourceCollection {
    /// The collection of the given destination rules, each tagged as such, in their
    /// order.
    fn from(v: Vec<kube_resource_extras::istio::DestinationRule>) -> (rc: Self)
        ensures
            rc@ == v@.map_values(|record: kube_resource_extras::istio::DestinationRule| Resource::DestinationRule(record)),
    {
        let mut inner: Vec<Resource> = Vec::new();
        let ghost all = v@;
        for record in it: v
            invariant
                it.seq() == all,
                inner@ == all.take(it.index()).map_values(|record: kube_resource_extras::istio::DestinationRule| Resource::DestinationRule(record)),
        {
            proof {
                let at = it.index();
                assert(all.take(at + 1) =~= all.take(at).push(record));
                assert(all.take(at + 1).map_values(|record: kube_resource_extras::istio::DestinationRule| Resource::DestinationRule(record))
                    =~= all.take(at).map_values(|record: kube_resource_extras::istio::DestinationRule| Resource::DestinationRule(record)).push(
                    Resource::DestinationRule(record),
                ));
            }
            inner.push(Resource::from(record));
        }
        assert(all.take(all.len() as int) =~= all);
        ResourceCollection { inner }
    }
}

/// What this conversion gives is stated on `from` itself: a collection holds
/// a vector, and no vector can be written down as a mathematical value.
impl vstd::std_specs::convert::FromSpecImpl<Vec<kube_resource_extras::istio::DestinationRule>> for ResourceCollection {
    open spec fn obeys_from_spec() -> bool {
        false
    }

    open spec fn from_spec(v: Vec<kube_resource_extras::istio::DestinationRule>) -> Self {
        arbitrary()
    }
}

impl From<Vec<kube_resource_extras::istio::EnvoyFilter>> for ResourceCollection {
    /// The collection of the given Envoy filters, each tagged as such, in their
    /// order.
    fn from(v: Vec<kube_resource_extras::istio::EnvoyFilter>) -> (rc: Self)
        ensures
            rc@ == v@.map_values(|record: kube_resource_extras::istio::EnvoyFilter| Resource::EnvoyFilter(record)),
    {
        let mut inner: Vec<Resource> = Vec::new();
        let ghost all = v@;
        for record in it: v
            invariant
                it.seq() == all,
                inner@ == all.take(it.index()).map_values(|record: kube_resource_extras::istio::EnvoyFilter| Resource::EnvoyFilter(record)),
        {
            proof {
                let at = it.index();
                assert(all.take(at + 1) =~= all.take(at).push(record));
                assert(all.take(at + 1).map_values(|record: kube_resource_extras::istio::EnvoyFilter| Resource::EnvoyFilter(record))
                    =~= all.take(at).map_values(|record: kube_resource_extras::istio::EnvoyFilter| Resource::EnvoyFilter(record)).push(
                    Resource::EnvoyFilter(record),
                ));
            }
            inner.push(Resource::from(record));
        }
        assert(all.take(all.len() as int) =~= all);
        ResourceCollection { inner }
    }
}

/// What this conversion gives is stated on `from` itself: a collection holds
/// a vector, and no vector can be written down as a mathematical value.
impl vstd::std_specs::convert::FromSpecImpl<Vec<kube_resource_extras::istio::EnvoyFilter>> for ResourceCollection {
    open spec fn obeys_from_spec() -> bool {
        false
    }

    open spec fn from_spec(v: Vec<kube_resource_extras::istio::EnvoyFilter>) -> Self {
        arbitrary()
    }
}

impl From<Vec<api::core::v1::Service>> for ResourceCollection {
    /// The collection of the given services, each tagged as such, in their
    /// order.
    fn from(v: Vec<api::core::v1::Service>) -> (rc: Self)
        ensures
            rc@ == v@.map_values(|record: api::core::v1::Service| Resource::Service(record)),
    {
        let mut inner: Vec<Resource> = Vec::new();
        let ghost all = v@;
        for record in it: v
            invariant
                it.seq() == all,
                inner@ == all.take(it.index()).map_values(|record: api::core::v1::Service| Resource::Service(record)),
        {
            proof {
                let at = it.index();
                assert(all.take(at + 1) =~= all.take(at).push(record));
                assert(all.take(at + 1).map_values(|record: api::core::v1::Service| Resource::Service(record))
                    =~= all.take(at).map_values(|record: api::core::v1::Service| Resource::Service(record)).push(
                    Resource::Service(record),
                ));
            }
            inner.push(Resource::from(record));
        }
        assert(all.take(all.len() as int) =~= all);
        ResourceCollection { inner }
    }
}

/// What this conversion gives is stated on `from` itself: a collection holds
/// a vector, and no vector can be written down as a mathematical value.
impl vstd::std_specs::convert::FromSpecImpl<Vec<api::core::v1::Service>> for ResourceCollection {
    open spec fn obeys_from_spec() -> bool {
        false
    }

    open spec fn from_spec(v: Vec<api::core::v1::Service>) -> Self {
        arbitrary()
    }
}

impl From<Vec<api::networking::v1::Ingress>> for ResourceCollection {
    /// The collection of the given ingresses, each tagged as such, in their
    /// order.
    fn from(v: Vec<api::networking::v1::Ingress>) -> (rc: Self)
        ensures
            rc@ == v@.map_values(|record: api::networking::v1::Ingress| Resource::Ingress(record)),
    {
        let mut inner: Vec<Resource> = Vec::new();
        let ghost all = v@;
        for record in it: v
            invariant
                it.seq() == all,
                inner@ == all.take(it.index()).map_values(|record: api::networking::v1::Ingress| Resource::Ingress(record)),
        {
            proof {
                let at = it.index();
                assert(all.take(at + 1) =~= all.take(at).push(record));
                assert(all.take(at + 1).map_values(|record: api::networking::v1::Ingress| Resource::Ingress(record))
                    =~= all.take(at).map_values(|record: api::networking::v1::Ingress| Resource::Ingress(record)).push(
                    Resource::Ingress(record),
                ));
            }
            inner.push(Resource::from(record));
        }
        assert(all.take(all.len() as int) =~= all);
        ResourceCollection { inner }
    }
}

/// What this conversion gives is stated on `from` itself: a collection holds
/// a vector, and no vector can be written down as a mathematical value.
impl vstd::std_specs::convert::FromSpecImpl<Vec<api::networking::v1::Ingress>> for ResourceCollection {
    open spec fn obeys_from_spec() -> bool {
        false
    }

    open spec fn from_spec(v: Vec<api::networking::v1::Ingress>) -> Self {
        arbitrary()
    }
}

impl From<Vec<api::core::v1::Namespace>> for ResourceCollection {
    /// The collection of the given namespaces, each tagged as such, in their
    /// order.
    fn from(v: Vec<api::core::v1::Namespace>) -> (rc: Self)
        ensures
            rc@ == v@.map_values(|record: api::core::v1::Namespace| Resource::Namespace(record)),
    {
        let mut inner: Vec<Resource> = Vec::new();
        let ghost all = v@;
        for record in it: v
            invariant
                it.seq() == all,
                inner@ == all.take(it.index()).map_values(|record: api::core::v1::Namespace| Resource::Namespace(record)),
        {
            proof {
                let at = it.index();
                assert(all.take(at + 1) =~= all.take(at).push(record));
                assert(all.take(at + 1).map_values(|record: api::core::v1::Namespace| Resource::Namespace(record))
                    =~= all.take(at).map_values(|record: api::core::v1::Namespace| Resource::Namespace(record)).push(
                    Resource::Namespace(record),
                ));
            }
            inner.push(Resource::from(record));
        }
        assert(all.take(all.len() as int) =~= all);
        ResourceCollection { inner }
    }
}

/// What this conversion gives is stated on `from` itself: a collection holds
/// a vector, and no vector can be written down as a mathematical value.
impl vstd::std_specs::convert::FromSpecImpl<Vec<api::core::v1::Namespace>> for ResourceCollection {
    open spec fn obeys_from_spec() -> bool {
        false
    }

    open spec fn from_spec(v: Vec<api::core::v1::Namespace>) -> Self {
        arbitrary()
    }
}

impl From<Vec<api::core::v1::Pod>> for ResourceCollection {
    /// The collection of the given pods, each tagged as such, in their
    /// order.
    fn from(v: Vec<api::core::v1::Pod>) -> (rc: Self)
        ensures
            rc@ == v@.map_values(|record: api::core::v1::Pod| Resource::Pod(record)),
    {
        let mut inner: Vec<Resource> = Vec::new();
        let ghost all = v@;
        for record in it: v
            invariant
                it.seq() == all,
                inner@ == all.take(it.index()).map_values(|record: api::core::v1::Pod| Resource::Pod(record)),
        {
            proof {
                let at = it.index();
                assert(all.take(at + 1) =~= all.take(at).push(record));
                assert(all.take(at + 1).map_values(|record: api::core::v1::Pod| Resource::Pod(record))
                    =~= all.take(at).map_values(|record: api::core::v1::Pod| Resource::Pod(record)).push(
                    Resource::Pod(record),
                ));
            }
            inner.push(Resource::from(record));
        }
        assert(all.take(all.len() as int) =~= all);
        ResourceCollection { inner }
    }
}

/// What this conversion gives is stated on `from` itself: a collection holds
/// a vector, and no vector can be written down as a mathematical value.
impl vstd::std_specs::convert::FromSpecImpl<Vec<api::core::v1::Pod>> for ResourceCollection {
    open spec fn obeys_from_spec() -> bool {
        false
    }

    open spec fn from_spec(v: Vec<api::core::v1::Pod>) -> Self {
        arbitrary()
    }
}

impl From<Vec<api::apps::v1::Deployment>> for ResourceCollection {
    /// The collection of the given deployments, each tagged as such, in their
    /// order.
    fn from(v: Vec<api::apps::v1::Deployment>) -> (rc: Self)
        ensures
            rc@ == v@.map_values(|record: api::apps::v1::Deployment| Resource::Deployment(record)),
    {
        let mut inner: Vec<Resource> = Vec::new();
        let ghost all = v@;
        for record in it: v
            invariant
                it.seq() == all,
                inner@ == all.take(it.index()).map_values(|record: api::apps::v1::Deployment| Resource::Deployment(record)),
        {
            proof {
                let at = it.index();
                assert(all.take(at + 1) =~= all.take(at).push(record));
                assert(all.take(at + 1).map_values(|record: api::apps::v1::Deployment| Resource::Deployment(record))
                    =~= all.take(at).map_values(|record: api::apps::v1::Deployment| Resource::Deployment(record)).push(
                    Resource::Deployment(record),
                ));
            }
            inner.push(Resource::from(record));
        }
        assert(all.take(all.len() as int) =~= all);
        ResourceCollection { inner }
    }
}

/// What this conversion gives is stated on `from` itself: a collection holds
/// a vector, and no vector can be written down as a mathematical value.
impl vstd::std_specs::convert::FromSpecImpl<Vec<api::apps::v1::Deployment>> for ResourceCollection {
    open spec fn obeys_from_spec() -> bool {
        false
    }

    open spec fn from_spec(v: Vec<api::apps::v1::Deployment>) -> Self {
        arbitrary()
    }
}

impl From<Vec<api::batch::v1::CronJob>> for ResourceCollection {
    /// The collection of the given cron jobs, each tagged as such, in their
    /// order.
    fn from(v: Vec<api::batch::v1::CronJob>) -> (rc: Self)
        ensures
            rc@ == v@.map_values(|record: api::batch::v1::CronJob| Resource::CronJob(record)),
    {
        let mut inner: Vec<Resource> = Vec::new();
        let ghost all = v@;
        for record in it: v
            invariant
                it.seq() == all,
                inner@ == all.take(it.index()).map_values(|record: api::batch::v1::CronJob| Resource::CronJob(record)),
        {
            proof {
                let at = it.index();
                assert(all.take(at + 1) =~= all.take(at).push(record));
                assert(all.take(at + 1).map_values(|record: api::batch::v1::CronJob| Resource::CronJob(record))
                    =~= all.take(at).map_values(|record: api::batch::v1::CronJob| Resource::CronJob(record)).push(
                    Resource::CronJob(record),
                ));
            }
            inner.push(Resource::from(record));
        }
        assert(all.take(all.len() as int) =~= all);
        ResourceCollection { inner }
    }
}

/// What this conversion gives is stated on `from` itself: a collection holds
/// a vector, and no vector can be written down as a mathematical value.
impl vstd::std_specs::convert::FromSpecImpl<Vec<api::batch::v1::CronJob>> for ResourceCollection {
    open spec fn obeys_from_spec() -> bool {
        false
    }

    open spec fn from_spec(v: Vec<api::batch::v1::CronJob>) -> Self {
        arbitrary()
    }
}

impl From<Vec<kube_core::DynamicObject>> for ResourceCollection {
    /// The collection of the given objects of other kinds, each tagged as such, in their
    /// order.
    fn from(v: Vec<kube_core::DynamicObject>) -> (rc: Self)
        ensures
            rc@ == v@.map_values(|record: kube_core::DynamicObject| Resource::DynamicObject(record)),
    {
        let mut inner: Vec<Resource> = Vec::new();
        let ghost all = v@;
        for record in it: v
            invariant
                it.seq() == all,
                inner@ == all.take(it.index()).map_values(|record: kube_core::DynamicObject| Resource::DynamicObject(record)),
        {
            proof {
                let at = it.index();
                assert(all.take(at + 1) =~= all.take(at).push(record));
                assert(all.take(at + 1).map_values(|record: kube_core::DynamicObject| Resource::DynamicObject(record))
                    =~= all.take(at).map_values(|record: kube_core::DynamicObject| Resource::DynamicObject(record)).push(
                    Resource::DynamicObject(record),
                ));
            }
            inner.push(Resource::from(record));
        }
        assert(all.take(all.len() as int) =~= all);
        ResourceCollection { inner }
    }
}

/// What this conversion gives is stated on `from` itself: a collection holds
/// a vector, and no vector can be written down as a mathematical value.
impl vstd::std_specs::convert::FromSpecImpl<Vec<kube_core::DynamicObject>> for ResourceCollection {
    open spec fn obeys_from_spec() -> bool {
        false
    }

    open spec fn from_spec(v: Vec<kube_core::DynamicObject>) -> Self {
        arbitrary()
    }
}

} // verus!
