//! Core of a screen-automation macro tool: an ordered sequence of
//! input-synthesis steps, a binary file format for storing it, and the
//! state machine that drives a run of the sequence.

pub mod anchor;
pub mod codec;
pub mod components;
pub mod engine;
pub mod error;
pub mod image_data;
pub mod keys;
pub mod labels;
pub mod serial;
pub mod settings;
pub mod step;
pub mod strutil;
pub mod wire;
