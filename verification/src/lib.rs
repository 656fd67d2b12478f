//! Verified decision and projection logic of the PostgreSQL store of the
//! Darkhorse identity server: migration planning, instrumentation
//! histograms, catalog and directory administration statements, paging,
//! audit vocabularies and error classification.
pub mod authentication;
pub mod catalog;
pub mod delivery;
pub mod directory;
pub mod limiter;
pub mod media;
pub mod migrations;
pub mod oidc;
pub mod operators;
pub mod personal_keys;
pub mod profiling;
pub mod registration;
pub mod sql;
