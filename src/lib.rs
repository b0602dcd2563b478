//! Core helpers of the wikit dictionary tool: a shell-style command-line
//! tokenizer, text normalization, path and port helpers, and the unified
//! error type.
pub mod argparse;
pub mod command;
pub mod error;
pub mod paths;
pub mod port;
pub mod text;
