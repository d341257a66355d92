//! Wrap-around index arithmetic shared by every "cycle" command.

use vstd::prelude::*;

verus! {

/// Direction for cycling through an ordered collection.
#[derive(Clone, Copy, Debug, PartialEq, Eq, Structural)]
pub enum CycleDirection {
    Previous,
    Next,
}

/// The index reached from `idx` by one step in `dir` around a ring of
/// `len` slots.
pub open spec fn spec_next_idx(dir: CycleDirection, idx: nat, len: nat) -> nat
    recommends
        len > 0,
        idx < len,
{
    match dir {
        CycleDirection::Previous => if idx == 0 {
            (len - 1) as nat
        } else {
            (idx - 1) as nat
        },
        CycleDirection::Next => if idx + 1 == len {
            0
        } else {
            (idx + 1) as nat
        },
    }
}

/// Steps `idx` one slot around a ring of `len` slots; wrap-around is
/// mandatory at both ends.
pub fn next_idx(dir: CycleDirection, idx: usize, len: usize) -> (r: usize)
    requires
        len > 0,
        idx < len,
    ensures
        r < len,
        r == spec_next_idx(dir, idx as nat, len as nat),
{
    match dir {
        CycleDirection::Previous => {
            if idx == 0 {
                len - 1
            } else {
                idx - 1
            }
        },
        CycleDirection::Next => {
            if idx + 1 == len {
                0
            } else {
                idx + 1
            }
        },
    }
}

} // verus!
