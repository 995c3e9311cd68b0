//! Engine of a memory-mapped write-throughput benchmark.
//!
//! A source file is mapped once, cut into cache-sized segments and handed to a
//! sink over and over by a pool of workers, while a monitor turns the shared
//! pass counter into rolling rates. This crate holds the rules of that engine:
//! how the hardware profile chooses thread count and chunk size, how a view is
//! cut into segments, how a worker moves through its states, and how the
//! monitor computes its figures. Opening files, mapping memory and spawning
//! threads are left to the program around it.

pub mod arith;
pub mod hardware;
pub mod error;
pub mod source;
pub mod config;
pub mod counter;
pub mod segments;
pub mod worker;
pub mod monitor;
pub mod engine;
