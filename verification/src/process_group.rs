//! Addressing a service's whole process tree by signal.
use vstd::prelude::*;

verus! {

/// The negated PID read as an `i32`, the way `-(pid as i32)` computes it.
pub open spec fn group_target_of(pid: u32) -> int {
    -((pid as i32) as int)
}

/// The `kill` target that addresses the process group led by the process
/// `pid`: the negated PID, with the PID read as an `i32` (wrapping above
/// `i32::MAX`). Negating `i32::MIN` would overflow, so the PID `2^31` is
/// excluded.
pub fn process_group_target(pid: u32) -> (target: i32)
    requires
        pid != 0x8000_0000u32,
    ensures
        target as int == group_target_of(pid),
{
    let p = pid as i32;
    assert(p != i32::MIN) by (bit_vector)
        requires
            p == pid as i32,
            pid != 0x8000_0000u32,
    ;
    -p
}

} // verus!
