//! The two protocols: the upstream catalog and the downstream server.

pub mod ertflix_client;
pub mod jellyfin_server;
