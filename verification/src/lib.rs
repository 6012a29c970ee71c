//! Byte-sum checksums and fixed-width integer addition with silent wraparound.
//!
//! Every function is total: an overflow is never signalled, the high-order bits
//! of the result are discarded.

pub mod addition;
pub mod checksum;

pub use addition::{add_my_numbers, add_numbers, add_wide, narrow_to_i32};
pub use checksum::{checksum_from_rust, checksum_of_bytes};
