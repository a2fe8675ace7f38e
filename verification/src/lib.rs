//! Materializes a project tree from a parameterized template tree: resolves the
//! declared questions into an answer context, then decides for every template
//! entry what has to be written where.
pub mod cli;
pub mod config;
pub mod error;
pub mod hooks;
pub mod ignore;
pub mod ioutils;
pub mod json;
pub mod loader;
pub mod parser;
pub mod processor;
pub mod prompt;
pub mod question;
pub mod renderer;
pub mod template;
pub mod text;
pub mod value;
