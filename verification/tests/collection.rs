use k8s_openapi::api;
use kube_query::resource::Resource;
use kube_query::resource_collection::ResourceCollection;
use kube_query::resource_type::ResourceType;

fn pod(name: &str) -> api::core::v1::Pod {
    let mut pod = api::core::v1::Pod::default();
    pod.metadata.name = Some(name.to_string());
    pod
}

fn service(name: &str) -> api::core::v1::Service {
    let mut service = api::core::v1::Service::default();
    service.metadata.name = Some(name.to_string());
    service
}

fn name_of(resource: &Resource) -> String {
    match resource {
        Resource::Pod(p) => p.metadata.name.clone().unwrap(),
        Resource::Service(s) => s.metadata.name.clone().unwrap(),
        other => panic!("{:?}", other),
    }
}

fn names_of(collection: &ResourceCollection) -> Vec<String> {
    collection.iter().map(name_of).collect()
}

#[test]
fn default_collection_is_empty() {
    let collection = ResourceCollection::default();
    assert_eq!(collection.len(), 0);
    assert!(collection.is_empty());
}

#[test]
fn concat_appends_in_order() {
    let mut first = ResourceCollection::from(vec![pod("a"), pod("b")]);
    let second = ResourceCollection::from(vec![service("c"), service("d"), service("e")]);
    first.concat(second);
    assert_eq!(first.len(), 5);
    assert_eq!(names_of(&first), vec!["a", "b", "c", "d", "e"]);
    assert_eq!(first[0].kind(), ResourceType::Pod);
    assert_eq!(first[1].kind(), ResourceType::Pod);
    assert_eq!(first[2].kind(), ResourceType::Service);
    assert_eq!(first[4].kind(), ResourceType::Service);
}

#[test]
fn concat_keeps_duplicates() {
    let mut first = ResourceCollection::from(vec![pod("a"), pod("a")]);
    first.concat(ResourceCollection::from(vec![pod("a")]));
    assert_eq!(names_of(&first), vec!["a", "a", "a"]);
}

#[test]
fn concat_with_empty_collections() {
    let mut first = ResourceCollection::default();
    first.concat(ResourceCollection::default());
    assert_eq!(first.len(), 0);
    first.concat(ResourceCollection::from(vec![pod("a")]));
    assert_eq!(names_of(&first), vec!["a"]);
    first.concat(ResourceCollection::default());
    assert_eq!(names_of(&first), vec!["a"]);
}

#[test]
fn records_are_tagged_with_their_kind() {
    assert_eq!(Resource::from(pod("a")).kind(), ResourceType::Pod);
    assert_eq!(Resource::from(service("a")).kind(), ResourceType::Service);
    assert_eq!(Resource::from(api::core::v1::Namespace::default()).kind(), ResourceType::Namespace);
    let collection = ResourceCollection::from(vec![api::core::v1::Namespace::default(), api::core::v1::Namespace::default()]);
    assert_eq!(collection.len(), 2);
    assert!(collection.iter().all(|r| r.kind() == ResourceType::Namespace));
}

#[test]
fn collection_of_resources_keeps_them() {
    let collection =
        ResourceCollection::from(vec![Resource::from(service("s")), Resource::from(pod("p"))]);
    assert_eq!(names_of(&collection), vec!["s", "p"]);
}

#[test]
fn collection_can_be_changed_as_a_vector() {
    let mut collection = ResourceCollection::from(vec![pod("a")]);
    collection.push(Resource::from(pod("b")));
    assert_eq!(names_of(&collection), vec!["a", "b"]);
    let copy = collection[1].clone();
    assert_eq!(name_of(&copy), "b");
}
