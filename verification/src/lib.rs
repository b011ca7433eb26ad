//! Credential lifecycle for third-party printer-cloud accounts.
//!
//! The library rotates externally issued access/refresh tokens for a device
//! and dispatches device commands to the vendor that owns the device. Vendor
//! protocols stay behind two narrow capabilities (authenticate, send a device
//! command); a registry maps a provider identity to the adapter that
//! implements a capability, and the orchestration services coordinate
//! lookup, authentication and the delete-then-insert rotation of the
//! persisted token rows.

pub mod access_token;
pub mod ams;
pub mod bambulab;
pub mod http_api;
pub mod json;
pub mod memory;
pub mod ports;
pub mod refresh_token;
pub mod registry;
pub mod token_service;
pub mod tokens;
