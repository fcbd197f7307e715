//! What the stored values mean where the store holds nothing yet.

use vstd::prelude::*;

verus! {

/// The id of the first stream.
pub const FIRST_STREAM_ID: u32 = 1;

/// The id a new stream gets: the stored counter, or the first id where no
/// stream was created yet.
pub open spec fn next_id_or_first(stored: Option<u32>) -> u32 {
    match stored {
        Some(id) => id,
        None => FIRST_STREAM_ID,
    }
}

/// The id the next stream gets, from the stored counter.
pub fn get_next_stream_id(stored: Option<u32>) -> (id: u32)
    ensures
        id == next_id_or_first(stored),
{
    match stored {
        Some(id) => id,
        None => FIRST_STREAM_ID,
    }
}

} // verus!
