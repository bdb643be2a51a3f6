//! Experience records service: record model and validation, identifier
//! handling, error taxonomy, and the decision logic of the repository,
//! service and handler layers, with a model of the document collection.

pub mod env;
pub mod errors;
pub mod handlers;
pub mod laws;
pub mod models;
pub mod object_id;
pub mod repository;
pub mod service;
pub mod store;
