//! Orchestration of the catalog requests.

pub mod media_service;
