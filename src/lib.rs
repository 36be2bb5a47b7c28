//! Control plane of a single-host micro-VM orchestrator: the host/guest
//! packet protocol, the network-slot allocator and firewall rule book, the
//! per-machine log ring, token validation and runtime-spec synthesis.

pub mod auth;
pub mod frame;
pub mod guest;
pub mod image;
pub mod logs;
pub mod manager;
pub mod mmds;
pub mod network;
pub mod runtime;
pub mod supervisor;
pub mod text;
pub mod vmm;
