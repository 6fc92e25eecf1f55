//! Verified core of a software KVM: shared input-event types, the binary
//! wire protocol, edge-push detection, the server and client session state
//! machines, platform key/button mappings and certificate identities.

pub mod bytes;
pub mod capture;
pub mod cert;
pub mod client;
pub mod config;
pub mod edge;
pub mod emulate;
pub mod event;
pub mod handoff;
pub mod keymap;
pub mod proto;
pub mod server;
