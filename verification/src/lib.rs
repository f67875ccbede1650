//! Verified core of an httpie-style command-line HTTP client.
//!
//! The library validates command-line input (URLs and `key=value` body
//! pairs), turns a parsed command into a single request plan (method, URL,
//! JSON body), and renders a received response as text blocks: a status
//! block, a headers block, and a content-type-aware body block.
//! Network I/O, argument parsing and terminal output live outside the
//! library; they exchange plain values with it.

pub mod body;
pub mod errors;
pub mod json;
pub mod kv;
pub mod render;
pub mod request;
pub mod urlcheck;
pub mod views;
