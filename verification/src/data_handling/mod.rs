//! Labeled sensor readouts: the five-byte records (one label byte, then
//! the value as four little-endian bytes) that a climate sensor frame is
//! made of.

pub mod dynamic_labeled_readout;
pub mod labeled_readout;
pub mod static_leabeled_readout;
