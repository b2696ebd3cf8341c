//! Batch text processing: each input line becomes a result record stamped
//! with a sequential item number, and the records are collected in order.

pub mod record;
pub mod processor;
pub mod pipeline;
