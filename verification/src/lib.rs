//! A process-isolation library: a host process declares an explicit
//! allow-list of operations (a profile) that a child process may perform,
//! spawns that child with its standard streams wired through pipes, and
//! enforces the profile through the platform's confinement mechanism.
//! Everything not granted is implicitly denied.

pub mod platform;
pub mod process;
pub mod profile;
pub mod sandbox;
pub mod utf8;
