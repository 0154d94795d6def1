//! Deployment engine of a small application installer.
//!
//! The crate reads ZIP containers without trusting the offsets they hold
//! (`zip_utils`), and decides each step of the update, uninstall, install and
//! launch sequence (`engine`, `install_utils`). It touches neither the file
//! system nor the process table: a driver performs what the engine asks for and
//! reports back what happened.

pub mod zip_utils;

pub mod engine;
pub mod install_utils;
