use k8s_openapi::api;
use kube_query::kubernetes::{Candidate, PathMatch, QueryRun};
use kube_query::resource::Resource;
use kube_query::resource_collection::ResourceCollection;
use kube_query::{KubeQueryError, KubeQueryResult, ResourceQuery, ResourceType};
use serde_json::Value;

fn text(s: &str) -> Option<String> {
    Some(s.to_string())
}

fn found(json: &str) -> KubeQueryResult<Value> {
    Ok(serde_json::from_str(json).unwrap())
}

fn not_found() -> KubeQueryResult<Value> {
    Err(KubeQueryError::QueryError("no such field".to_string()))
}

fn pods(names: &[&str]) -> ResourceCollection {
    let mut all = Vec::new();
    for name in names {
        let mut pod = api::core::v1::Pod::default();
        pod.metadata.name = Some(name.to_string());
        all.push(pod);
    }
    ResourceCollection::from(all)
}

fn services(names: &[&str]) -> ResourceCollection {
    let mut all = Vec::new();
    for name in names {
        let mut service = api::core::v1::Service::default();
        service.metadata.name = Some(name.to_string());
        all.push(service);
    }
    ResourceCollection::from(all)
}

fn name_of(resource: &Resource) -> String {
    match resource {
        Resource::Pod(p) => p.metadata.name.clone().unwrap(),
        Resource::Service(s) => s.metadata.name.clone().unwrap(),
        other => panic!("{:?}", other),
    }
}

fn names_of(collection: &ResourceCollection) -> Vec<String> {
    collection.iter().map(name_of).collect()
}

fn failed() -> KubeQueryResult<ResourceCollection> {
    Err(KubeQueryError::KubeError(kube::Error::LinesCodecMaxLineLengthExceeded))
}

#[test]
fn default_query_selects_eight_kinds_and_nothing_else() {
    let query = ResourceQuery::default();
    assert_eq!(
        query.resource,
        vec![
            ResourceType::Gateway,
            ResourceType::VirtualService,
            ResourceType::Service,
            ResourceType::Ingress,
            ResourceType::Namespace,
            ResourceType::Pod,
            ResourceType::Deployment,
            ResourceType::CronJob,
        ]
    );
    assert!(query.filter.is_empty());
    assert!(query.namespace.is_none());
    assert!(query.name.is_none());
}

#[test]
fn select_replaces_the_kinds() {
    let mut query = ResourceQuery::default();
    query.select(vec![ResourceType::Pod, ResourceType::Pod, ResourceType::DestinationRule]);
    assert_eq!(
        query.resource,
        vec![ResourceType::Pod, ResourceType::Pod, ResourceType::DestinationRule]
    );
    query.select(Vec::<ResourceType>::new());
    assert!(query.resource.is_empty());
}

#[test]
fn select_takes_names() {
    let mut query = ResourceQuery::default();
    query.select(vec!["Pod".to_string(), "secret".to_string(), "INGRESS".to_string()]);
    assert_eq!(
        query.resource,
        vec![ResourceType::Pod, ResourceType::DynamicObject, ResourceType::Ingress]
    );
}

#[test]
fn select_keeps_filters_and_scope() {
    let mut query = ResourceQuery::default();
    query.name = text("kubernetes");
    query.filter(text("namespace"), text("billing")).select(vec![ResourceType::Service]);
    assert_eq!(query.filter.len(), 1);
    assert_eq!(query.namespace, text("billing"));
    assert_eq!(query.name, text("kubernetes"));
}

#[test]
fn namespace_filter_sets_the_scope_and_stays_a_filter() {
    let mut query = ResourceQuery::default();
    query.filter(text("namespace"), text("billing"));
    assert_eq!(query.namespace, text("billing"));
    assert_eq!(query.filter.len(), 1);
    assert!(matches!(query.filter[0].key, PathMatch::Namespace));
    assert_eq!(query.filter[0].key.to_string(), ".metadata.namespace");
    assert_eq!(query.filter[0].value, text("billing"));
    assert_eq!(query.paths(), vec![".metadata.namespace".to_string()]);
    assert_eq!(query.scope().namespace, text("billing"));
}

#[test]
fn record_of_another_namespace_is_excluded() {
    let mut query = ResourceQuery::default();
    query.filter(text("namespace"), text("billing"));
    assert!(!query.passes(vec![found("\"other\"")]));
    assert!(!query.passes(vec![found("[\"other\"]")]));
    assert!(query.passes(vec![found("\"billing\"")]));
    assert!(query.passes(vec![found("[\"billing\"]")]));
}

#[test]
fn namespace_filter_without_value_leaves_the_scope() {
    let mut query = ResourceQuery::default();
    query.filter(text("Namespace"), None);
    assert!(query.namespace.is_none());
    assert_eq!(query.filter.len(), 1);
    assert!(matches!(query.filter[0].key, PathMatch::Namespace));
    assert!(query.filter[0].value.is_none());
}

#[test]
fn later_namespace_filter_replaces_the_scope() {
    let mut query = ResourceQuery::default();
    query.filter(text("namespace"), text("a")).filter(text("NAMESPACE"), text("b"));
    assert_eq!(query.namespace, text("b"));
    assert_eq!(query.filter.len(), 2);
}

#[test]
fn annotation_and_label_filters_are_kept_as_paths() {
    let mut query = ResourceQuery::default();
    query.filter(text("annotation"), None).filter(text("Label"), text("x"));
    assert!(query.namespace.is_none());
    match &query.filter[0].key {
        PathMatch::Query(q) => assert_eq!(q, ".metadata.annotations"),
        other => panic!("{:?}", other),
    }
    match &query.filter[1].key {
        PathMatch::Query(q) => assert_eq!(q, ".metadata.labels"),
        other => panic!("{:?}", other),
    }
    assert_eq!(query.filter[1].value, text("x"));
    assert_eq!(
        query.paths(),
        vec![".metadata.annotations".to_string(), ".metadata.labels".to_string()]
    );
}

#[test]
fn annotation_filter_without_value_asks_for_some_annotation() {
    let mut query = ResourceQuery::default();
    query.filter(text("annotation"), None);
    assert!(query.passes(vec![found("{\"prometheus.io/scrape\": \"true\"}")]));
    assert!(query.passes(vec![found("{\"a\": \"\", \"b\": \"\"}")]));
    assert!(query.passes(vec![found("[{\"a\": \"b\"}]")]));
    assert!(!query.passes(vec![found("{}")]));
    assert!(!query.passes(vec![found("null")]));
    assert!(!query.passes(vec![not_found()]));
}

#[test]
fn filter_without_key_has_no_path() {
    let mut query = ResourceQuery::default();
    query.filter(None, text("x")).filter(text(""), None).filter(text(".spec.x"), None);
    assert!(matches!(query.filter[0].key, PathMatch::Empty));
    assert_eq!(query.filter[0].value, text("x"));
    assert!(matches!(query.filter[1].key, PathMatch::Empty));
    match &query.filter[2].key {
        PathMatch::Query(q) => assert_eq!(q, ".spec.x"),
        other => panic!("{:?}", other),
    }
    assert_eq!(query.paths(), vec!["".to_string(), "".to_string(), ".spec.x".to_string()]);
}

#[test]
fn scope_selects_the_exact_name() {
    let mut query = ResourceQuery::default();
    let scope = query.scope();
    assert!(scope.namespace.is_none());
    assert!(scope.field_selector.is_none());
    query.name = text("kubernetes");
    query.namespace = text("default");
    let scope = query.scope();
    assert_eq!(scope.namespace, text("default"));
    assert_eq!(scope.field_selector, text("metadata.name=kubernetes"));
}

#[test]
fn simple_resource_access() {
    let mut query = ResourceQuery::default();
    query.select(vec![ResourceType::Service]);
    query.name = text("kubernetes");
    assert_eq!(query.scope().field_selector, text("metadata.name=kubernetes"));
    let result = query.query(Ok(()), vec![Ok(services(&["kubernetes"]))]);
    for r in result.expect("broke").iter() {
        println!("{:?}", r);
    }
}

#[test]
fn every_record_passes_without_filters() {
    let query = ResourceQuery::default();
    assert!(query.passes(vec![]));
    assert!(query.passes(vec![not_found()]));
}

#[test]
fn all_filters_must_be_met() {
    let mut query = ResourceQuery::default();
    query.filter(text("namespace"), text("billing")).filter(text("label"), None);
    assert!(query.passes(vec![found("\"billing\""), found("{\"app\": \"x\"}")]));
    assert!(!query.passes(vec![found("\"billing\""), found("{}")]));
    assert!(!query.passes(vec![found("\"other\""), found("{\"app\": \"x\"}")]));
    assert!(!query.passes(vec![found("\"billing\""), not_found()]));
    assert!(!query.passes(vec![found("\"billing\"")]));
    assert!(!query.passes(vec![]));
    assert!(query.passes(vec![found("\"billing\""), found("[1]"), not_found()]));
}

#[test]
fn retain_keeps_passing_records_in_order() {
    let mut query = ResourceQuery::default();
    query.filter(text(".metadata.namespace"), text("billing"));
    let candidates = vec![
        Candidate { record: "a", found: vec![found("\"billing\"")] },
        Candidate { record: "b", found: vec![found("\"other\"")] },
        Candidate { record: "c", found: vec![not_found()] },
        Candidate { record: "d", found: vec![found("[\"billing\"]")] },
        Candidate { record: "e", found: vec![] },
        Candidate { record: "a", found: vec![found("\"billing\"")] },
    ];
    assert_eq!(query.retain(candidates), vec!["a", "d", "a"]);
    assert_eq!(query.retain(Vec::<Candidate<u8>>::new()), Vec::<u8>::new());
    let unfiltered = ResourceQuery::default();
    let candidates =
        vec![Candidate { record: 1, found: vec![] }, Candidate { record: 2, found: vec![] }];
    assert_eq!(unfiltered.retain(candidates), vec![1, 2]);
}

#[test]
fn failed_fetch_of_one_kind_is_masked() {
    let mut query = ResourceQuery::default();
    query.select(vec![ResourceType::Service, ResourceType::Pod]);
    let result = query.query(Ok(()), vec![failed(), Ok(pods(&["a", "b", "c"]))]);
    let records = result.unwrap();
    assert_eq!(records.len(), 3);
    assert!(records.iter().all(|r| r.kind() == ResourceType::Pod));
    assert_eq!(names_of(&records), vec!["a", "b", "c"]);
}

#[test]
fn failed_connection_fails_the_query() {
    let query = ResourceQuery::default();
    let result = query.query(Err(kube::Error::LinesCodecMaxLineLengthExceeded), vec![]);
    assert!(matches!(
        result,
        Err(KubeQueryError::KubeError(kube::Error::LinesCodecMaxLineLengthExceeded))
    ));
    let started = query.begin::<u8>(Err(kube::Error::LinesCodecMaxLineLengthExceeded));
    assert!(matches!(started, Err(KubeQueryError::KubeError(_))));
}

#[test]
fn records_come_in_the_order_of_the_kinds() {
    let mut query = ResourceQuery::default();
    query.select(vec![ResourceType::Pod, ResourceType::Service, ResourceType::Pod]);
    let result = query
        .query(Ok(()), vec![Ok(pods(&["first", "second"])), Ok(services(&["third"])), Ok(pods(&["first", "second"]))])
        .unwrap();
    assert_eq!(names_of(&result), vec!["first", "second", "third", "first", "second"]);
}

#[test]
fn dynamic_objects_are_not_fetched() {
    let mut query = ResourceQuery::default();
    query.select(vec![
        ResourceType::DynamicObject,
        ResourceType::Pod,
        ResourceType::DynamicObject,
        ResourceType::Service,
        ResourceType::DynamicObject,
    ]);
    let result = query.query(Ok(()), vec![Ok(pods(&["p"])), Ok(services(&["s"]))]).unwrap();
    assert_eq!(names_of(&result), vec!["p", "s"]);
    query.select(vec![ResourceType::DynamicObject]);
    let result = query.query(Ok(()), vec![Ok(pods(&["p"]))]).unwrap();
    assert!(result.is_empty());
}

#[test]
fn missing_and_spare_outcomes() {
    let mut query = ResourceQuery::default();
    query.select(vec![ResourceType::Pod, ResourceType::Service]);
    let result = query.query(Ok(()), vec![Ok(pods(&["p"]))]).unwrap();
    assert_eq!(names_of(&result), vec!["p"]);
    let result = query
        .query(Ok(()), vec![Ok(pods(&["p"])), Ok(services(&["s"])), Ok(pods(&["spare"]))])
        .unwrap();
    assert_eq!(names_of(&result), vec!["p", "s"]);
    let result = query.query(Ok(()), vec![]).unwrap();
    assert!(result.is_empty());
    query.select(Vec::<ResourceType>::new());
    let result = query.query(Ok(()), vec![Ok(pods(&["p"]))]).unwrap();
    assert!(result.is_empty());
}

#[test]
fn query_step_by_step() {
    let mut query = ResourceQuery::default();
    query.select(vec![
        ResourceType::DynamicObject,
        ResourceType::Service,
        ResourceType::Pod,
        ResourceType::DynamicObject,
    ]);
    let (client, mut run): (&str, QueryRun) = query.begin(Ok("client")).unwrap();
    assert_eq!(client, "client");
    assert_eq!(run.next, 0);
    assert!(run.gathered.is_empty());
    assert_eq!(query.pending(&mut run), Some(ResourceType::Service));
    assert_eq!(run.next, 1);
    assert_eq!(query.pending(&mut run), Some(ResourceType::Service));
    assert_eq!(run.next, 1);
    query.absorb(&mut run, failed());
    assert_eq!(run.next, 2);
    assert!(run.gathered.is_empty());
    assert_eq!(query.pending(&mut run), Some(ResourceType::Pod));
    query.absorb(&mut run, Ok(pods(&["a", "b", "c"])));
    assert_eq!(run.next, 3);
    assert_eq!(query.pending(&mut run), None);
    assert_eq!(run.next, 4);
    query.absorb(&mut run, Ok(pods(&["late"])));
    assert_eq!(run.next, 4);
    assert_eq!(names_of(&run.gathered), vec!["a", "b", "c"]);
}

#[test]
fn outcome_for_a_dynamic_object_adds_nothing() {
    let mut query = ResourceQuery::default();
    query.select(vec![ResourceType::DynamicObject, ResourceType::Pod]);
    let (_, mut run) = query.begin(Ok(())).unwrap();
    query.absorb(&mut run, Ok(pods(&["x"])));
    assert_eq!(run.next, 1);
    assert!(run.gathered.is_empty());
    query.absorb(&mut run, Ok(pods(&["y"])));
    assert_eq!(names_of(&run.gathered), vec!["y"]);
}

#[test]
fn test_query_kubernetes() {
    let mut query = ResourceQuery::default();
    let value = query
        .filter(Some("Namespace".to_string()), Some("wordpress".to_string()))
        .query(Ok(()), vec![failed(), failed(), Ok(services(&["wordpress"]))]);
    assert_eq!(query.namespace, text("wordpress"));
    let records = value.unwrap();
    println!("{:?}", records.len());
    assert_eq!(records.len(), 1);
}

#[test]
fn errors_keep_their_cause() {
    let cause = regex::Regex::new("(").unwrap_err();
    match KubeQueryError::from(cause.clone()) {
        KubeQueryError::RegexError(e) => assert_eq!(e, cause),
        other => panic!("{:?}", other),
    }
    assert!(matches!(
        KubeQueryError::from(kube::Error::LinesCodecMaxLineLengthExceeded),
        KubeQueryError::KubeError(kube::Error::LinesCodecMaxLineLengthExceeded)
    ));
}
