//! Identity-graph aggregation: the data model, the store's upsert and traversal
//! rules, the request and response handling of the graph store adapter, the
//! target-dispatch engine and the read policy of the query layer.

pub mod controller;
pub mod error;
pub mod graph;
pub mod outside;
pub mod store;
pub mod text;
pub mod tigergraph;
pub mod upstream;
