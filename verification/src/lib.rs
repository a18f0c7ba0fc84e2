//! Validation and inspection of PNG chunk-type tags: four ASCII letter
//! bytes whose cases encode the critical, public, reserved and
//! safe-to-copy flags.

pub mod chunk_type;
