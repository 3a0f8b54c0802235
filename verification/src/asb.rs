//! The maker's daemon: its configuration.

pub mod config;
pub mod document;
