//! Packs the boolean fields of a struct into one integer container.
//!
//! The library takes a description of a struct's fields together with the
//! struct-wide and per-field options, and works out the rewritten layout: which
//! fields stay, which integer width holds the flags, the bit of each flag, the
//! accessors that read and write it, and the default bit pattern.
pub mod bits;
pub mod config;
pub mod error;
pub mod packing;
pub mod plan;
pub mod template;

pub use plan::pack_bools;
