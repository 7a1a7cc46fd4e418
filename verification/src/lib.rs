//! Tenant-scoped experiment management: authentication of callers, validation
//! of experiments, and the persistence boundary that keeps tenants apart.

use crate::service::experiment::Store;
use vstd::prelude::*;

pub mod auth;
pub mod handler;
pub mod json;
pub mod middleware;
pub mod repository;
pub mod service;
pub mod text;

verus! {

/// What the server is run with.
#[derive(Debug, Clone, PartialEq, Eq)]
pub struct ServerConfig {
    /// The secret that tokens are signed with.
    pub jwt_secret: String,
    /// How many experiments a page of a list holds.
    pub items_per_page: usize,
}

/// What the handlers work with.
pub struct Dependency<ExpStore: Store> {
    pub experiment_repo: ExpStore,
}

} // verus!
