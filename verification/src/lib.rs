//! Verified core of an account switcher for a single-instance game client:
//! the snapshot store, the kernel-lock scanner, the privileged launcher and the
//! session-switch transaction that composes them.

pub mod account;
pub mod client_path;
pub mod commands;
pub mod config;
pub mod file_swap;
pub mod health;
pub mod inspector;
pub mod kernel;
pub mod logger;
pub mod mirror;
pub mod mutex;
pub mod notices;
pub mod os;
pub mod permissions;
pub mod process;
pub mod text;
pub mod transaction;
pub mod users;
