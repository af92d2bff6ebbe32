//! Configuration and library-maintenance logic of KoShelf, a reading companion
//! built on KOReader metadata, with its behaviour stated and proved.

pub mod args;
pub mod cli;
pub mod cli_laws;
pub mod duration;
pub mod file_config;
pub mod formats;
pub mod grammar;
pub mod ingest;
pub mod merge;
pub mod paths;
pub mod proxies;
pub mod rebuild;
pub mod rebuild_flow;
pub mod site;
pub mod text;
pub mod validate;
