//! Buffer-size negotiation rules.
//!
//! A driver reports a (min, max, preferred, granularity) quadruple. The
//! granularity encodes which sizes inside [min, max] may be requested
//! when buffers are created: a positive value is a fixed step from the
//! minimum, zero means the single supported size, and a negative value
//! means the powers of two within the range.

use vstd::prelude::*;

verus! {

/// The granularity value that stands for "powers of two within the
/// range".
pub const GRANULARITY_POWER_OF_TWO: i32 = -1;

/// Whether `n` is a power of two.
pub open spec fn is_power_of_two(n: int) -> bool
    decreases n,
{
    if n < 1 {
        false
    } else if n == 1 {
        true
    } else {
        n % 2 == 0 && is_power_of_two(n / 2)
    }
}

/// Whether a requested buffer size is permitted by a reported
/// (min, max, granularity) triple.
pub open spec fn buffer_size_permitted(min: int, max: int, granularity: int, size: int) -> bool {
    if granularity == 0 {
        size == min
    } else if granularity > 0 {
        min <= size <= max && (size - min) % granularity == 0
    } else {
        min <= size <= max && is_power_of_two(size)
    }
}

/// Two powers of two are never neighbours closer than a doubling: the
/// larger is at least twice the smaller.
pub proof fn lemma_power_of_two_gap(a: int, b: int)
    requires
        is_power_of_two(a),
        is_power_of_two(b),
        a < b,
    ensures
        2 * a <= b,
    decreases b,
{
    assert(b != 1);
    assert(b % 2 == 0 && is_power_of_two(b / 2));
    if a > b / 2 {
        lemma_power_of_two_gap(b / 2, a);
        assert(false);
    }
}

/// Decides whether `size` is a power of two, by walking the powers up
/// from one.
pub fn is_power_of_two_exec(size: i32) -> (r: bool)
    ensures
        r == is_power_of_two(size as int),
{
    if size < 1 {
        return false;
    }
    let target: i64 = size as i64;
    let mut p: i64 = 1;
    while p < target
        invariant
            1 <= p,
            p <= target || p < 2 * target,
            target <= 0x7fff_ffff,
            is_power_of_two(p as int),
            p == 1 || p / 2 < target,
        decreases 2 * target - p,
    {
        p = p * 2;
    }
    if p == target {
        true
    } else {
        proof {
            if is_power_of_two(target as int) {
                lemma_power_of_two_gap(target as int, p as int);
            }
        }
        false
    }
}

/// Decides whether a requested size is permitted by the reported
/// negotiation triple.
pub fn buffer_size_allowed(min: i32, max: i32, granularity: i32, size: i32) -> (r: bool)
    ensures
        r == buffer_size_permitted(min as int, max as int, granularity as int, size as int),
{
    if granularity == 0 {
        size == min
    } else if granularity > 0 {
        min <= size && size <= max && (size as i64 - min as i64) % (granularity as i64) == 0
    } else {
        min <= size && size <= max && is_power_of_two_exec(size)
    }
}

} // verus!
