//! The decisions behind `deno desktop`.

pub mod compile;
pub mod config;
pub mod deep_links;
pub mod dev;
pub mod error;
pub mod flags;
pub mod framework;
pub mod installer;
pub mod launch;
pub mod packaging;
pub mod path_rules;
pub mod paths;
pub mod pipeline;
pub mod platform;
pub mod report;
pub mod requests;
pub mod text;
