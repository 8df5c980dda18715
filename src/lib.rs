//! Turns the text printed by a network-configuration query (`ipconfig /all`)
//! into the body of a resolver configuration file.
//!
//! The extractor walks the text line by line with a three-mode state machine
//! and collects DNS server addresses and DNS search suffixes; the renderer
//! formats what was collected. Both are verified against the models in
//! their modules.

pub mod cli;
pub mod laws;
pub mod lines;
pub mod pattern;
pub mod resolv;
pub mod search;
