//! A library for browsing OPDS catalogs and local download directories.
//!
//! The crate models the navigation core of a terminal catalog browser:
//! URL handling, the entry model derived from Atom feeds, OpenSearch
//! discovery, per-connection history and caching, credential lookup,
//! download filename derivation, and the controller's dispatch policy.

pub mod config;
pub mod connection;
pub mod controller;
pub mod errors;
pub mod feed;
pub mod files;
pub mod headers;
pub mod model;
pub mod server;
pub mod text;
pub mod urls;
