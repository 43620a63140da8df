//! Streaming transform over a JSON document whose top level is an array:
//! elements are pulled one at a time, transformed, and pushed back one at a
//! time, so no more than one element is held at once. The reader and the
//! writer each run an explicit state machine that rejects calls outside it.
pub mod error;
pub mod state;
pub mod reader;
pub mod writer;
pub mod pipeline;
