use vstd::prelude::*;

pub mod error;
pub mod adapter;
pub mod epoch;
pub mod marshal;

verus! {

/// Number of bytes in one compressed public-key encoding.
pub const KEY_ENCODING_SIZE: usize = 96;

} // verus!
