//! Pluggable firewall backends for container networking: a uniform driver
//! interface, a selector that picks exactly one backend per process, and the
//! disabled backend that accepts every request without touching the host.
pub mod error;
pub mod firewall;
pub mod internal_types;
