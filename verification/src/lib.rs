//! Interactive generator for console-themed portfolio sites.
//!
//! The crate collects user and project information through a wizard state
//! machine, validates every input, and adapts the collected project entries
//! into theme-specific output documents that the site templates consume.

pub mod adapt;
pub mod codec;
pub mod doc;
pub mod errors;
pub mod files;
pub mod github;
pub mod models;
pub mod strutil;
pub mod theme;
pub mod validation;
pub mod wizard;
