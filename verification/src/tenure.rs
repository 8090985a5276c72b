//! The timing decision of a mining tenure.

use vstd::prelude::*;

verus! {

/// A tenure keeps waiting before it builds its block while the time since the
/// burnchain tip arrived, in milliseconds, is below the time within which the
/// anchored block is to be committed.
pub fn tenure_keeps_waiting(commit_anchor_block_within: u64, elapsed_millis: u128) -> (res: bool)
    ensures
        res == (elapsed_millis < commit_anchor_block_within),
{
    let duration_left: u128 = commit_anchor_block_within as u128;
    duration_left.saturating_sub(elapsed_millis) > 0
}

} // verus!
