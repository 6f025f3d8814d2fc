//! Verified core of a self-hosted Git Smart HTTP service.
//!
//! The library covers the protocol bridge and the repository lifecycle:
//! the pkt-line codec, the resolution of `(owner, project)` URL pairs to
//! repository identities, the access-control gate for fetch and push, the
//! argument building and outcome interpretation for the stateless-RPC `git`
//! subprocess, the tree/blob inspection model, the transactional rules that
//! keep database rows and on-disk repositories consistent, and the parsing
//! of authorization and token request parameters.
//!
//! Everything that talks to the outside world (HTTP, database, filesystem,
//! subprocesses) stays in an unverified shell that feeds plain values to the
//! functions here and carries their decisions out.

pub mod auth;
pub mod config;
pub mod error;
pub mod form;
pub mod handler;
pub mod identity;
pub mod lifecycle;
pub mod models;
pub mod pktline;
pub mod repository;
pub mod service;
pub mod strutil;
pub mod tree;
