use vstd::prelude::*;

use crate::chain::env_block_timestamp;

verus! {

/// The time of the current block, in nanoseconds.
pub fn get_timestamp() -> (res: u64) {
    env_block_timestamp()
}

} // verus!
