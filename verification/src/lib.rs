//! Authorization and session core of a multi-tenant service.
//!
//! The crate decides, for a caller acting under one role, whether an action on
//! a resource is permitted, and turns bearer credentials into caller
//! identities. Every executable function carries a contract. Verus proves
//! each of them except those of the ten functions that call into other crates
//! (`uuid`, `jsonwebtoken`, `serde_json`, `argon2`, `validator`): these are
//! marked `external_body`, their contracts are believed and not proved, and
//! every proof that uses one rests on it.
//!
//! - [`rbac`] holds the access rules and [`laws`] what follows from them.
//! - [`auth`] resolves a token to a caller and a caller to a membership, and
//!   issues sessions.
//! - [`routes`] decides what each request is answered with, from what the
//!   service has read; [`error`] says how a refusal is reported.
//! - [`entities`] and [`id`] hold the records and their identifiers;
//!   [`validation`], [`password`] and [`decimal`] the rules for single values.
//!
//! Nothing here reads storage or the network. The clock is read only to hold
//! a token's expiry against it, and the system's random source only to salt
//! the hash of a new password.

pub mod auth;
pub mod decimal;
pub mod entities;
pub mod error;
pub mod id;
pub mod laws;
pub mod password;
pub mod rbac;
pub mod routes;
pub mod validation;
