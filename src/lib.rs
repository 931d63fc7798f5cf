//! A Jellyfin-compatible view over the ERTFLIX catalog: section classification,
//! tile resolution, response synthesis and client header parsing, with their
//! contracts proved.

pub mod api;
pub mod clock;
pub mod config;
pub mod ids;
pub mod models;
pub mod services;
pub mod text;
