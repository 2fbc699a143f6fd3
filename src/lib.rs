//! Declarative provisioning: install the packages of a configuration and
//! link its dotfiles into place.
//!
//! The link engine and the provisioning run are state machines: each step takes
//! what the filesystem (or the caller) reported and returns the next primitive
//! operation to perform. The program around the library performs it and hands
//! the outcome back, so every decision is made, and verified, here.
pub mod config;
pub mod error;
pub mod laws;
pub mod provision;
pub mod reconcile;

pub use config::{Config, Package, SysLink};
pub use error::IpaError;
pub use provision::{Ipa, PackageManagement, Stage};
pub use reconcile::{Action, DirEntry, Event, Kind, Reconciler, Task, Wait};
