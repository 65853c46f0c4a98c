//! A streaming media-understanding pipeline: a byte stream is probed for
//! its container format, its video frames are decoded, frames that repeat
//! their predecessor are dropped, and the captions of the frames that are
//! left are gathered into the prompt for a summary.
//!
//! The work across the foreign-function boundary and on the network is done
//! by the caller; this library holds the decisions around it, and the
//! smaller models and text formats that the assistant around the pipeline
//! uses.

pub mod error;

pub mod buffer;
pub mod reader;

pub mod format;

pub mod context;
pub mod source;

pub mod threshold;
pub mod dedup;
pub mod caption;
pub mod aggregate;

pub mod text;
pub mod summary;

pub mod chat;
pub mod prompt;
pub mod splitter;

pub mod tools;
pub mod registry;

pub mod attachment;
pub mod domains;
pub mod config;
pub mod settings;
pub mod cli;

pub mod gemini;
pub mod live;

pub mod content;
pub mod model;
pub mod tokenizer;
