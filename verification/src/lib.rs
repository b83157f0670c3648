//! A verified core for a command-line helper that manages SSH key pairs:
//! adding, removing, showing and password-protecting keys kept in the
//! user's SSH directory, with the OpenSSH tools doing the cryptographic
//! work as external processes.
//!
//! The library holds every decision the tool makes: how a name is resolved
//! to a path, which editor is chosen, when the key agent must be started,
//! which steps each subcommand performs and in what order, and how the
//! outcome of each external call is classified. The surrounding binary
//! only carries those decisions out against the real filesystem and the
//! real processes.

pub mod agent;
pub mod cli;
pub mod editor;
pub mod error;
pub mod model;
pub mod outcome;
pub mod paths;
pub mod plan;
