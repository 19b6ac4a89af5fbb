//! Verified core of a cleaner for a GitHub organization's container
//! packages: the data model for package and version listings, the
//! dangling-version predicate and filter, request-URL construction,
//! and the state machine that drives one cleaning run.

pub mod decimal;
pub mod github_package_versions;
pub mod github_packages;
pub mod orchestrator;
pub mod run_options;
