//! The kinds of resource that a query can select.
use crate::text::{is_word, lowercase, to_lowercase};
use vstd::prelude::*;

verus! {

/// A kind of resource. `DynamicObject` stands for every kind without a variant
/// of its own.
#[derive(Clone, Copy, Debug, PartialEq, Eq, Structural)]
pub enum ResourceType {
    Gateway,
    VirtualService,
    DestinationRule,
    EnvoyFilter,
    Service,
    Ingress,
    Namespace,
    Pod,
    Deployment,
    CronJob,
    DynamicObject,
}

impl ResourceType {
    /// The kind that a lower-case name stands for: one of the ten keywords
    /// gives its kind, every other text gives `DynamicObject`.
    pub open spec fn spec_of_keyword(word: Seq<char>) -> ResourceType {
        if word == "gateway"@ {
            ResourceType::Gateway
        } else if word == "virtualservice"@ {
            ResourceType::VirtualService
        } else if word == "destinationrule"@ {
            ResourceType::DestinationRule
        } else if word == "envoyfilter"@ {
            ResourceType::EnvoyFilter
        } else if word == "service"@ {
            ResourceType::Service
        } else if word == "ingress"@ {
            ResourceType::Ingress
        } else if word == "namespace"@ {
            ResourceType::Namespace
        } else if word == "pod"@ {
            ResourceType::Pod
        } else if word == "deployment"@ {
            ResourceType::Deployment
        } else if word == "cronjob"@ {
            ResourceType::CronJob
        } else {
            ResourceType::DynamicObject
        }
    }

    /// The kind that a name stands for, whatever its case.
    pub open spec fn spec_of_name(name: Seq<char>) -> ResourceType {
        Self::spec_of_keyword(lowercase(name))
    }

    /// The kind that a lower-case name stands for. The comparison is exact:
    /// a name that is not in lower case gives `DynamicObject`.
    pub fn of_keyword(word: &String) -> (kind: ResourceType)
        ensures
            kind == Self::spec_of_keyword(word@),
    {
        if is_word(word, "gateway") {
            ResourceType::Gateway
        } else if is_word(word, "virtualservice") {
            ResourceType::VirtualService
        } else if is_word(word, "destinationrule") {
            ResourceType::DestinationRule
        } else if is_word(word, "envoyfilter") {
            ResourceType::EnvoyFilter
        } else if is_word(word, "service") {
            ResourceType::Service
        } else if is_word(word, "ingress") {
            ResourceType::Ingress
        } else if is_word(word, "namespace") {
            ResourceType::Namespace
        } else if is_word(word, "pod") {
            ResourceType::Pod
        } else if is_word(word, "deployment") {
            ResourceType::Deployment
        } else if is_word(word, "cronjob") {
            ResourceType::CronJob
        } else {
            ResourceType::DynamicObject
        }
    }
}

impl From<String> for ResourceType {
    /// The kind that `name` stands for. Every name gives a kind; none is an
    /// error.
    fn from(name: String) -> (kind: Self)
        ensures
            kind == ResourceType::spec_of_name(name@),
    {
        let lower = to_lowercase(name.as_str());
        ResourceType::of_keyword(&lower)
    }
}

impl vstd::std_specs::convert::FromSpecImpl<String> for ResourceType {
    open spec fn obeys_from_spec() -> bool {
        true
    }

    open spec fn from_spec(name: String) -> Self {
        ResourceType::spec_of_name(name@)
    }
}

/// `From::from` of a value into its own type, which std documents as
/// returning the argument unchanged.
pub assume_specification<Same>[ <Same as std::convert::From<Same>>::from ](value: Same) -> (r: Same)
    ensures
        r == value,
;

/// Each of the ten keywords stands for the kind of its name.
pub proof fn law_keywords()
    ensures
        ResourceType::spec_of_keyword("gateway"@) == ResourceType::Gateway,
        ResourceType::spec_of_keyword("virtualservice"@) == ResourceType::VirtualService,
        ResourceType::spec_of_keyword("destinationrule"@) == ResourceType::DestinationRule,
        ResourceType::spec_of_keyword("envoyfilter"@) == ResourceType::EnvoyFilter,
        ResourceType::spec_of_keyword("service"@) == ResourceType::Service,
        ResourceType::spec_of_keyword("ingress"@) == ResourceType::Ingress,
        ResourceType::spec_of_keyword("namespace"@) == ResourceType::Namespace,
        ResourceType::spec_of_keyword("pod"@) == ResourceType::Pod,
        ResourceType::spec_of_keyword("deployment"@) == ResourceType::Deployment,
        ResourceType::spec_of_keyword("cronjob"@) == ResourceType::CronJob,
{
    reveal_strlit("gateway");
    reveal_strlit("virtualservice");
    reveal_strlit("destinationrule");
    reveal_strlit("envoyfilter");
    reveal_strlit("service");
    reveal_strlit("ingress");
    reveal_strlit("namespace");
    reveal_strlit("pod");
    reveal_strlit("deployment");
    reveal_strlit("cronjob");
    assert("gateway"@.len() == 7 && "gateway"@[0] == 'g');
    assert("virtualservice"@.len() == 14 && "virtualservice"@[0] == 'v');
    assert("destinationrule"@.len() == 15 && "destinationrule"@[0] == 'd');
    assert("envoyfilter"@.len() == 11 && "envoyfilter"@[0] == 'e');
    assert("service"@.len() == 7 && "service"@[0] == 's');
    assert("ingress"@.len() == 7 && "ingress"@[0] == 'i');
    assert("namespace"@.len() == 9 && "namespace"@[0] == 'n');
    assert("pod"@.len() == 3 && "pod"@[0] == 'p');
    assert("deployment"@.len() == 10 && "deployment"@[0] == 'd');
    assert("cronjob"@.len() == 7 && "cronjob"@[0] == 'c');
}

/// A word that is none of the ten keywords stands for `DynamicObject`.
pub proof fn law_other_words(word: Seq<char>)
    requires
        word != "gateway"@,
        word != "virtualservice"@,
        word != "destinationrule"@,
        word != "envoyfilter"@,
        word != "service"@,
        word != "ingress"@,
        word != "namespace"@,
        word != "pod"@,
        word != "deployment"@,
        word != "cronjob"@,
    ensures
        ResourceType::spec_of_keyword(word) == ResourceType::DynamicObject,
{
}

/// The kind of a name does not depend on the case of its letters: two names
/// with the same lower-case form stand for the same kind.
pub proof fn law_case_insensitive(a: Seq<char>, b: Seq<char>)
    requires
        lowercase(a) == lowercase(b),
    ensures
        ResourceType::spec_of_name(a) == ResourceType::spec_of_name(b),
{
}

} // verus!
