//! Backup restore and verification engine of the Haven chat platform.
//!
//! The crate holds the decisions of the handlers that verify the signature of
//! an export manifest, rebuild a server's structure from a backup, replay
//! historical messages, note an export in the audit log, and hand out beta
//! codes. A handler that works on the persistent store is a session: a state
//! machine that names the next store operation and is told what the store
//! answered. The store itself, the network and the mailer are the caller's.

pub mod errors;
pub mod idmap;
pub mod text;
pub mod backup;
pub mod ids;
pub mod encoding;
pub mod time;
pub mod signature;
pub mod manifest;
pub mod restore;
pub mod restore_laws;
pub mod import;
pub mod import_laws;
pub mod audit;
pub mod beta;
