//! Byte-oriented reader and writer traits following the non-blocking result
//! contract, with in-memory implementations.

pub mod read;
pub mod write;
