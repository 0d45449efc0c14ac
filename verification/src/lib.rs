//! Decision engine of a project-scaffolding tool.
//!
//! Given a project (a name, a base path and a list of components, each tagged
//! with a technology string), the engine decides which directories to create,
//! which external generators to invoke and how to reconcile the directory a
//! generator chose with the directory the caller expects.  The engine itself
//! performs no I/O: it emits [`fsops::Action`] values one at a time and
//! consumes [`fsops::Event`] values describing how each action went, so a
//! driver (a real one against the filesystem and the toolchains, or a scripted
//! one in tests) runs the loop.

pub mod classify;
pub mod content;
pub mod create;
pub mod fsops;
pub mod laws;
pub mod probe;
pub mod scaffold;
pub mod tech;
pub mod text;
