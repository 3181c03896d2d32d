//! Scaffolding a new parachain project from a named template: destination
//! resolution, conflict handling with an existing directory, template
//! selection and parameter binding, materialization, repository
//! initialization with classified error handling, and result reporting.
//!
//! The workflow itself performs no side effect. It is a verified state
//! machine (see [`workflow`]) that hands its caller directives — check a
//! path, ask the user, remove a directory, materialize, initialize a
//! repository, notify — and consumes the outcome of each as the next
//! event. The caller supplies the terminal, the filesystem, the template
//! engine and the version-control library.

pub mod config;
pub mod template;
pub mod vcs;
pub mod workflow;
