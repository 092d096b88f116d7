//! Host-inventory agent library.
//!
//! The core of the agent is the SMBIOS field-resolution engine: it decodes a
//! vendor-populated binary hardware table into typed fields, applying fallback
//! and extension rules for deprecated field pairs, and the delivery pipeline
//! that turns the resolved facts into signed, retried HTTP deliveries.

pub mod agent;
pub mod collect;
pub mod delivery;
pub mod host;
pub mod json;
pub mod kube;
pub mod net;
pub mod schema;
pub mod sign;
pub mod smbios;
pub mod text;
