//! Decision logic of a launcher that locates, prepares and supervises a
//! dependent application runtime.

pub mod command;
pub mod consent;
pub mod installer;
pub mod launcher;
pub mod laws;
pub mod logger;
pub mod manifest;
pub mod messages;
pub mod model;
pub mod paths;
pub mod probe;
pub mod protocol;
pub mod supervisor;
pub mod text;
