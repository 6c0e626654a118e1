//! Core of a multi-backend software store: catalog aggregation with a
//! deterministic multi-tier relevance ranking, and an orchestrator for
//! long-running install/update/uninstall operations.

pub mod aggregator;
pub mod app_info;
pub mod ids;
pub mod matcher;
pub mod natural;
pub mod orchestrator;
pub mod package;
pub mod pages;
pub mod search;
pub mod store;
