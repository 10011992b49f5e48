//! Verified core of a small VM provisioning service.
//!
//! The library holds the logic of the service: deterministic disk-path
//! derivation, domain-descriptor generation, guest-customization planning,
//! the staged create/rollback pipeline, and the parsers the lifecycle
//! operations rely on. Everything that touches the outside world (the
//! hypervisor connection, external tools, the filesystem, HTTP) lives in the
//! surrounding application, which only executes the plans and commands this
//! library produces and hands the results back.

pub mod config;
pub mod customize;
pub mod disk;
pub mod error;
pub mod http;
pub mod manager;
pub mod metrics;
pub mod strs;
pub mod xml;
