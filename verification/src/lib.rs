//! The registry of detached agent workers, and the rules of the restricted
//! profile under which their sessions are served.
//!
//! The registry:
//! - [`record`]: the record of one worker, and what can be read off it.
//! - [`paths`]: the files of a session inside the workers directory.
//! - [`generation`]: the operations on a session's record under its lock.
//! - [`outcome`]: how each operation ends.
//! - [`interleaving`]: what holds when operations run at the same time.
//! - [`registry`]: listing and loading records, and what goes with a session.
//!
//! The restricted profile:
//! - [`restricted`]: which sessions belong to it.
//! - [`routes`]: which requests it admits.
//! - [`launcher`]: how its agent is launched.
//! - [`title`] and [`naming`]: the title that a session gets from its first prompt.
//! - [`catalog`] and [`import`]: the threads that may be imported.
//!
//! [`identity`], [`json_text`] and [`text`] serve both.

pub mod catalog;
pub mod error;
pub mod generation;
pub mod identity;
pub mod import;
pub mod interleaving;
pub mod json_text;
pub mod launcher;
pub mod naming;
pub mod outcome;
pub mod paths;
pub mod record;
pub mod registry;
pub mod restricted;
pub mod routes;
pub mod text;
pub mod title;
