//! Token lifecycle and claim-based authorization for a developer workstation
//! command line: claims carried by identity tokens, the device authorization
//! grant, the silent-refresh policy and the local helpers built on them.
//!
//! Everything here is a pure function of its arguments. Reading files, talking
//! to the identity provider and prompting the operator are left to the caller,
//! which feeds the results back in as plain values.

pub mod api;
pub mod auth0;
pub mod check;
pub mod claims;
pub mod cli;
pub mod context;
pub mod decode;
pub mod device_code_request;
pub mod error;
pub mod git;
pub mod json;
pub mod jwt;
pub mod messages;
pub mod models;
pub mod open;
pub mod openid;
pub mod paths;
pub mod purge;
pub mod render;
pub mod repositories;
pub mod scopes;
pub mod session;
pub mod sso;
pub mod string_map;
pub mod text;
pub mod token_repository;
pub mod version;
pub mod whoami;
