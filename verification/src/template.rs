//! The pipeline that turns template entries into operations on the output tree.
pub mod operation;
pub mod processor;
