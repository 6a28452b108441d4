use vstd::prelude::*;

verus! {

/// While generating remaining hitresults, decide how they should be
/// distributed.
#[derive(Copy, Clone, Debug, PartialEq, Eq, Structural)]
pub enum HitResultPriority {
    /// Prioritize good hitresults over bad ones.
    BestCase,
    /// Prioritize bad hitresults over good ones.
    WorstCase,
}

impl Default for HitResultPriority {
    fn default() -> (priority: Self)
        ensures
            priority == HitResultPriority::BestCase,
    {
        HitResultPriority::BestCase
    }
}

/// The smaller of two counts.
pub open spec fn spec_min(a: int, b: int) -> int {
    if a <= b {
        a
    } else {
        b
    }
}

/// The larger of two counts.
pub open spec fn spec_max(a: int, b: int) -> int {
    if a >= b {
        a
    } else {
        b
    }
}

/// What is left of `a` once `b` is taken away, and nothing if `b` is more.
pub open spec fn spec_sub(a: int, b: int) -> int {
    if a >= b {
        a - b
    } else {
        0
    }
}

/// A given count, held to at most `limit`; without a count, nothing.
pub open spec fn spec_given(count: Option<u32>, limit: int) -> int {
    match count {
        Some(n) => spec_min(n as int, limit),
        None => 0,
    }
}

/// The smaller of two counts.
pub fn min_u32(a: u32, b: u32) -> (m: u32)
    ensures
        m == spec_min(a as int, b as int),
{
    if a <= b {
        a
    } else {
        b
    }
}

/// The larger of two counts.
pub fn max_u32(a: u32, b: u32) -> (m: u32)
    ensures
        m == spec_max(a as int, b as int),
{
    if a >= b {
        a
    } else {
        b
    }
}

/// A given count, held to at most `limit`; without a count, nothing.
pub fn given(count: Option<u32>, limit: u32) -> (n: u32)
    ensures
        n == spec_given(count, limit as int),
        n <= limit,
{
    match count {
        Some(n) => min_u32(n, limit),
        None => 0,
    }
}

/// The amount of objects that a play got to, out of `n`.
pub fn limit_to(passed_objects: usize, n: u32) -> (m: u32)
    ensures
        m == spec_min(passed_objects as int, n as int),
{
    if passed_objects < n as usize {
        passed_objects as u32
    } else {
        n
    }
}

/// What is left of `a` once `b` is taken away, and nothing if `b` is more.
pub fn sub_or_zero(a: u32, b: u32) -> (d: u32)
    ensures
        d == spec_sub(a as int, b as int),
{
    if a >= b {
        a - b
    } else {
        0
    }
}

} // verus!
