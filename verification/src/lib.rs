//! Exporting the issues of a repository, with their comments, as markdown files.

pub mod client;
pub mod error;
pub mod filename;
pub mod json;
pub mod model;
pub mod pipeline;
pub mod query;
pub mod template;
pub mod text;
pub mod writer;
