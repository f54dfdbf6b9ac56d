//! Polling control loop for a press-count input device: the input text is
//! parsed into a raw count, the count is mapped to an output level in
//! 0..=100, and the level is rendered either as one percentage line for a
//! character device or as three duty lines for a trio of sysfs channels.
//!
//! Everything here is pure computation on values; the surrounding binary
//! does the reads, writes and sleeping.

pub mod cycle;
pub mod duty;
pub mod level;
pub mod parse;
pub mod text;
