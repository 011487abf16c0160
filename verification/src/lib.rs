//! Planning and coordination of batch image conversions that are carried out
//! by external command line tools.
//!
//! The library decides *what* is to be run: which tool, with which arguments,
//! in which order, and how the run reacts to outcomes and cancellation. It
//! starts no process itself; a caller executes the invocations and reports
//! back what happened.

pub mod color;
pub mod coordinator;
pub mod engine;
pub mod filetypes;
pub mod finalize;
pub mod identify;
pub mod input_file;
pub mod magick;
pub mod naming;
pub mod options;
pub mod outcome;
pub mod plan;
pub mod temp;
pub mod text;
