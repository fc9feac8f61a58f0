//! Auth generators: the files they emit and the text edits they apply to an
//! application's sources.

pub mod lines;
pub mod route_injector;
pub mod field;
pub mod files;
pub mod names;
pub mod controller;
pub mod eject;
pub mod install;
pub mod scaffold;
pub mod idempotence;
