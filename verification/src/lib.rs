//! Entity resolution for a reviews subgraph of a federated graph.
//!
//! The subgraph owns `Review` and extends `User` and `Product`, which live in
//! other subgraphs and are known here by their keys alone. The crate resolves
//! entity references sent by a gateway into key-only stubs, declares which
//! fields of each type are answered here, and joins the review collection
//! against a stub to compute its `reviews` field.

pub mod descriptor;
pub mod entity;
pub mod join;
pub mod names;
pub mod registry;
pub mod schema;
pub mod subgraph;
