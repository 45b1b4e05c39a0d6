//! Sunrise and sunset extraction from a solar report tool.
//!
//! The library builds the argument list handed to the `heliocron` tool,
//! decides what an invocation's captured output means, pulls the sunrise and
//! sunset times out of the report text, and frames the JSON document that
//! carries them.

pub mod command;
pub mod outcome;
pub mod output;
pub mod report;
pub mod text;
