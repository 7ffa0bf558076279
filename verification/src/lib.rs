//! Credential-provider library for a package registry that stores its
//! authentication tokens in a Bitwarden vault, reached through the `bw`
//! command-line tool.
//!
//! The library is the decision core: it parses the provider's own options,
//! chooses which vault commands to run and in what order, selects the vault
//! entry that belongs to a registry, builds create/edit payloads, and encodes
//! them in the vault's JSON wire format. Running the actual `bw` processes is
//! left to a thin unverified driver that feeds each command's outcome back
//! into the state machine in [`dispatch`].

pub mod builders;
pub mod dispatch;
pub mod error;
pub mod json;
pub mod laws;
pub mod model;
pub mod select;
pub mod text;
pub mod vault;
