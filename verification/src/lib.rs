//! The decision core of a watch, rebuild and run loop.
//!
//! A watcher reports that something changed under a project tree; after a
//! quiet period the project is rebuilt, and when the build succeeds the
//! freshly built executable is run. This crate holds every decision of that
//! loop as verified code over plain values. Watching the file system,
//! spawning processes and printing are left to the caller, which hands in
//! what happened and carries out what it is told.

pub mod control;
pub mod debounce;
pub mod history;
pub mod locator;
pub mod process;
pub mod text;
