//! Per-resource logic: what the tools compute from Kubernetes objects.
pub mod admission;
pub mod cluster_trust_bundle;
pub mod clusterrole;
pub mod clusterrolebinding;
pub mod configmap;
pub mod crd;
pub mod csr;
pub mod daemonset;
pub mod deployment;
pub mod device_resources;
pub mod endpoints;
pub mod endpointslice;
pub mod flowcontrol;
pub mod generic;
pub mod hpa;
pub mod ingressclass;
pub mod ip_networking;
pub mod job;
pub mod lease;
pub mod limitrange;
pub mod namespace;
