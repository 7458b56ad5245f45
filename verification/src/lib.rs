//! A minimal state-transition processor over host-supplied records.
//!
//! The crate has two components, composed linearly: an instruction codec
//! (`instruction`), which maps instruction values to and from their canonical
//! one-byte wire encoding, and a transition processor (`processor`), which
//! validates the record list presented with an instruction and performs a
//! single deterministic mutation of the target record's data region.
//! Shared data types — addresses, records, and the `Counter` payload with its
//! fixed four-byte little-endian layout — live in `state`.

pub mod instruction;
pub mod processor;
pub mod state;
