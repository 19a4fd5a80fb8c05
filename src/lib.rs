//! Transcodes a recorded container of per-frame still images into one with a
//! compressed video stream per channel, keeping every other record unchanged.
//!
//! The verified part holds the decisions and formats of a conversion run:
//! argument handling, record classification, derived topic names, resolution
//! of the still-image schema, the per-topic memo of encoders and output
//! channels, the encoding of the output video message, and the assembly of
//! output records.

pub mod cli;
pub mod help;
pub mod memo;
pub mod schema;
pub mod topic;
pub mod transcode;
pub mod wire;
