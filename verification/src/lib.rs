//! Lifecycle orchestration for per-user development workspaces.
//!
//! A workspace is a container that runs a remote IDE server for one user.
//! This crate holds the decisions around it: reading the user's identity out
//! of a token, naming the container, generating the connection secret,
//! composing the commands for the container runtime, reading the runtime's
//! answers and building the address the caller is sent to. Running the
//! commands and serving requests is left to the caller.

pub mod error;
pub mod identity;
pub mod launcher;
pub mod naming;
pub mod protocol;
pub mod redirect;
pub mod runtime;
pub mod secret;
pub mod settings;
pub mod terminator;
pub mod text;
