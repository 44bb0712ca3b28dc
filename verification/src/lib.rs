//! A verified core for a fixed-point audio noise pipeline: a 16.16 fixed-point
//! numeric domain, white/brown noise synthesis, a second-order IIR filter,
//! a double-buffered streaming scheduler, and the bit-serial protocol timing
//! contract that the word stream is produced for.

pub mod filter;
pub mod fx;
pub mod noise;
pub mod protocol;
pub mod rng;
pub mod scheduler;
pub mod wave;
