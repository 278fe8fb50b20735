//! Verified core logic of a Kubernetes MCP server.
pub mod text;
pub mod permissions;
pub mod calendar;
pub mod resources;
pub mod model;
pub mod types;
pub mod extract;
pub mod pod;
pub mod ingress;
pub mod maps;
pub mod mcp;
pub mod auth;
pub mod client;
pub mod cache;
pub mod cluster;
pub mod order;
pub mod node;
pub mod handlers;
pub mod requests;
pub mod history;

pub use cache::ResponseCache;
pub use client::K8sClient;
pub use client::Error;
pub use cluster::ClusterManager;
