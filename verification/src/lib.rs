//! Automation daemon core for a tiling window manager.
//!
//! The library holds everything that can be stated and proved: the wire
//! codecs of the two socket protocols, the notification parsers, the JSON
//! decoder for manager query replies, the runtime configuration store and
//! the per-event automation decisions.  All socket and process I/O lives
//! outside the library and hands it plain values.

pub mod cli;
pub mod codec;
pub mod config;
pub mod engine;
pub mod event;
pub mod json;
pub mod num;
pub mod scratchpad;
pub mod state;
pub mod text;
pub mod yabai;
