//! Translates a ratbox-services database snapshot (accounts, nicknames,
//! channels, channel memberships, bans) into the line-oriented text format
//! that atheme-services' bulk import reads.
//!
//! The translation itself — flag-bit to letter mappings, access-level
//! thresholds, the mode-lock bitmask, and the exact layout of each output
//! line — lives here, specified and verified. Reading the sqlite snapshot
//! and printing the lines is left to the surrounding binary.

pub mod flags;
pub mod numfmt;
pub mod records;
