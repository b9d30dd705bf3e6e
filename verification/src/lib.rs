//! Infinite-monkey search core: many workers emit random characters into
//! sliding windows that are scored against a fixed target text; the best
//! approximations and aggregate throughput are collected in a view model
//! for a display layer to read.

pub mod alphabet;
pub mod present;
pub mod scoring;
pub mod view_model;
pub mod worker;

mod rng;
