//! A verified boundary layer for a credential-issuance engine.
//!
//! Callers hold small integer handles to registry-owned, type-tagged objects
//! and drive the two issuance steps (definition generation, request
//! derivation) through entry points that report a status code and fill their
//! output slots all together or not at all.

pub mod cred_def;
pub mod cred_req;
pub mod error;
pub mod identifier;
pub mod object;
pub mod registry;
pub mod text;
