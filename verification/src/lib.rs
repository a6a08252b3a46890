//! A continuously refreshed model of a cross-repository dependency graph.
//!
//! Architecture fragments are scattered over many sources. This crate merges
//! the records read from them into one graph and resolves the links between
//! its entities ([`subsystem_mapping`]), keeps the published snapshot behind a
//! version counter and lets at most one rebuild be on its way ([`cache`]), and
//! decides which subscribers to tell when the version moves ([`server`]).
//!
//! Around that stand the configuration ([`config`]), the naming and choice of
//! source files ([`git_extraction`]), the reading of the update interval
//! ([`interval`]), the error type ([`error`]) and a few operations on text
//! ([`text`]). Reading files, fetching repositories, serving requests and
//! keeping time are left to the caller, who hands in what was read and the
//! time at which it was.

pub mod cache;
pub mod config;
pub mod error;
pub mod git_extraction;
pub mod interval;
pub mod server;
pub mod subsystem_mapping;
pub mod text;
