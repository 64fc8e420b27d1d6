use kube_query::kubernetes::PathMatch;
use kube_query::resource_type::ResourceType;

fn kind_of(name: &str) -> ResourceType {
    ResourceType::from(name.to_string())
}

fn path_of(key: &str) -> String {
    PathMatch::from(key).to_string()
}

#[test]
fn every_keyword_names_its_kind() {
    assert_eq!(kind_of("gateway"), ResourceType::Gateway);
    assert_eq!(kind_of("virtualservice"), ResourceType::VirtualService);
    assert_eq!(kind_of("destinationrule"), ResourceType::DestinationRule);
    assert_eq!(kind_of("envoyfilter"), ResourceType::EnvoyFilter);
    assert_eq!(kind_of("service"), ResourceType::Service);
    assert_eq!(kind_of("ingress"), ResourceType::Ingress);
    assert_eq!(kind_of("namespace"), ResourceType::Namespace);
    assert_eq!(kind_of("pod"), ResourceType::Pod);
    assert_eq!(kind_of("deployment"), ResourceType::Deployment);
    assert_eq!(kind_of("cronjob"), ResourceType::CronJob);
}

#[test]
fn kind_names_ignore_case() {
    assert_eq!(kind_of("POD"), ResourceType::Pod);
    assert_eq!(kind_of("Pod"), ResourceType::Pod);
    assert_eq!(kind_of("pOd"), ResourceType::Pod);
    assert_eq!(kind_of("VirtualService"), ResourceType::VirtualService);
    assert_eq!(kind_of("DESTINATIONRULE"), ResourceType::DestinationRule);
    assert_eq!(kind_of("CronJob"), ResourceType::CronJob);
}

#[test]
fn unknown_kind_names_are_dynamic_objects() {
    assert_eq!(kind_of(""), ResourceType::DynamicObject);
    assert_eq!(kind_of("pods"), ResourceType::DynamicObject);
    assert_eq!(kind_of(" pod"), ResourceType::DynamicObject);
    assert_eq!(kind_of("secret"), ResourceType::DynamicObject);
    assert_eq!(kind_of("dynamicobject"), ResourceType::DynamicObject);
    assert_eq!(kind_of("virtual service"), ResourceType::DynamicObject);
}

#[test]
fn keyword_comparison_is_exact() {
    assert_eq!(ResourceType::of_keyword(&"pod".to_string()), ResourceType::Pod);
    assert_eq!(ResourceType::of_keyword(&"Pod".to_string()), ResourceType::DynamicObject);
    assert_eq!(ResourceType::of_keyword(&"service".to_string()), ResourceType::Service);
    assert_eq!(
        ResourceType::of_keyword(&"virtualservice".to_string()),
        ResourceType::VirtualService
    );
}

#[test]
fn key_keywords_ignore_case() {
    assert!(matches!(PathMatch::from("annotation"), PathMatch::Annotation));
    assert!(matches!(PathMatch::from("Annotation"), PathMatch::Annotation));
    assert!(matches!(PathMatch::from("namespace"), PathMatch::Namespace));
    assert!(matches!(PathMatch::from("NAMESPACE"), PathMatch::Namespace));
    assert!(matches!(PathMatch::from("label"), PathMatch::Label));
    assert!(matches!(PathMatch::from("LaBeL"), PathMatch::Label));
}

#[test]
fn empty_key_means_no_path() {
    assert!(matches!(PathMatch::from(""), PathMatch::Empty));
    assert_eq!(path_of(""), "");
}

#[test]
fn other_keys_are_kept_verbatim() {
    match PathMatch::from(".spec.nodeName") {
        PathMatch::Query(q) => assert_eq!(q, ".spec.nodeName"),
        other => panic!("{:?}", other),
    }
    match PathMatch::from("Labels") {
        PathMatch::Query(q) => assert_eq!(q, "Labels"),
        other => panic!("{:?}", other),
    }
    match PathMatch::from(" ") {
        PathMatch::Query(q) => assert_eq!(q, " "),
        other => panic!("{:?}", other),
    }
}

#[test]
fn keyed_by_lowercase_form() {
    let lower = "label".to_string();
    assert!(matches!(PathMatch::of_lowercase(&lower, "LABEL"), PathMatch::Label));
    let lower = ".spec".to_string();
    match PathMatch::of_lowercase(&lower, ".Spec") {
        PathMatch::Query(q) => assert_eq!(q, ".Spec"),
        other => panic!("{:?}", other),
    }
}

#[test]
fn path_expressions_of_keys() {
    assert_eq!(path_of("namespace"), ".metadata.namespace");
    assert_eq!(path_of("annotation"), ".metadata.annotations");
    assert_eq!(path_of("label"), ".metadata.labels");
    assert_eq!(path_of(".status.phase"), ".status.phase");
    assert_eq!(PathMatch::Query("x".to_string()).to_string(), "x");
    assert_eq!(PathMatch::Empty.to_string(), "");
}
