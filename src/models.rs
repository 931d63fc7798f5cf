//! Content as the adapter holds it, and as the downstream protocol shows it.

pub mod ertflix;
pub mod jellyfin;
