//! Project detection and command-template suggestion.

pub mod text;
pub mod paths;
pub mod manifest;
pub mod strmap;
pub mod project;
pub mod classify;
pub mod structure;
pub mod suggest;
pub mod scan;
pub mod templates;
pub mod smart_templates;
pub mod config;
pub mod commands;
pub mod laws;
