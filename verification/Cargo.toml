[package]
name = "kube_query"
version = "0.1.0"
edition = "2021"
publish = false

[dependencies]
data-query = "=0.1.6"
k8s-openapi = { version = "=0.14.0", default-features = false, features = ["v1_22"] }
kube = "=0.71.0"
kube-core = "=0.71.0"
kube-resource-extras = { version = "=0.2.2", features = ["istio"] }
regex = "=1.13.1"
serde = "=1.0.229"
serde_json = "=1.0.154"
