use vstd::prelude::*;

verus! {

/// The sign bit of a double.
pub const SIGN_BIT: u64 = 0x8000_0000_0000_0000;

/// The bits of positive infinity as a double.
pub const INFINITY: u64 = 0x7FF0_0000_0000_0000;

/// The sign bit of a single-precision float.
pub const SIGN_BIT_SINGLE: u32 = 0x8000_0000;

/// The bits of positive infinity in single precision.
pub const INFINITY_SINGLE: u32 = 0x7F80_0000;

/// The bits of a double without the sign bit.
pub open spec fn magnitude(bits: u64) -> u64 {
    if bits >= SIGN_BIT {
        (bits - SIGN_BIT) as u64
    } else {
        bits
    }
}

/// Whether the bits are those of a double that is not a number.
pub open spec fn spec_is_nan(bits: u64) -> bool {
    magnitude(bits) > INFINITY
}

/// Whether the sign bit of a double is set.
pub open spec fn spec_is_sign_negative(bits: u64) -> bool {
    bits >= SIGN_BIT
}

/// Where a double that is a number lies among the numbers: doubles without
/// a sign bit lie in the order of their bits, doubles with a sign bit in the
/// reverse order below them, and the two zeros in the same place.
pub open spec fn place(bits: u64) -> int {
    if bits >= SIGN_BIT {
        -(magnitude(bits) as int)
    } else {
        bits as int
    }
}

/// Whether the first double is less than the second: both are numbers, and
/// the first lies below the second.
pub open spec fn spec_lt(a: u64, b: u64) -> bool {
    !spec_is_nan(a) && !spec_is_nan(b) && place(a) < place(b)
}

/// The larger of two doubles, and the other one if one is not a number. Of
/// two doubles in the same place the first is taken.
pub open spec fn spec_max(a: u64, b: u64) -> u64 {
    if spec_is_nan(a) {
        b
    } else if spec_is_nan(b) {
        a
    } else if place(a) < place(b) {
        b
    } else {
        a
    }
}

/// Whether the bits are those of a double that is not a number.
pub fn is_nan(bits: u64) -> (nan: bool)
    ensures
        nan == spec_is_nan(bits),
{
    let magnitude = if bits >= SIGN_BIT {
        bits - SIGN_BIT
    } else {
        bits
    };
    magnitude > INFINITY
}

/// Whether the sign bit of a double is set.
pub fn is_sign_negative(bits: u64) -> (negative: bool)
    ensures
        negative == spec_is_sign_negative(bits),
{
    bits >= SIGN_BIT
}

/// Where a double lies among the numbers.
fn place_of(bits: u64) -> (at: i64)
    ensures
        at == place(bits),
{
    if bits >= SIGN_BIT {
        -((bits - SIGN_BIT) as i64)
    } else {
        bits as i64
    }
}

/// Whether the first double is less than the second. Nothing is less or more
/// than what is not a number.
pub fn lt(a: u64, b: u64) -> (less: bool)
    ensures
        less == spec_lt(a, b),
{
    !is_nan(a) && !is_nan(b) && place_of(a) < place_of(b)
}

/// Whether the first double is greater than the second.
pub fn gt(a: u64, b: u64) -> (greater: bool)
    ensures
        greater == spec_lt(b, a),
{
    lt(b, a)
}

/// The larger of two doubles; if one is not a number, the other one.
///
/// Of a positive and a negative zero the first argument is handed back.
pub fn max(a: u64, b: u64) -> (larger: u64)
    ensures
        larger == spec_max(a, b),
{
    if is_nan(a) {
        b
    } else if is_nan(b) {
        a
    } else if place_of(a) < place_of(b) {
        b
    } else {
        a
    }
}

/// Among numbers, being less is a strict order in which any two that are
/// not in the same place are comparable.
pub proof fn lemma_lt_is_strict_order(a: u64, b: u64, c: u64)
    ensures
        !spec_lt(a, a),
        spec_lt(a, b) ==> !spec_lt(b, a),
        spec_lt(a, b) && spec_lt(b, c) ==> spec_lt(a, c),
        !spec_is_nan(a) && !spec_is_nan(b) ==> spec_lt(a, b) || spec_lt(b, a) || place(a) == place(
            b,
        ),
        place(a) == place(b) ==> a == b || magnitude(a) == 0 && magnitude(b) == 0,
{
}

/// The larger of two doubles is one of them, and neither is greater than
/// it; it is a number unless both are not.
pub proof fn lemma_max(a: u64, b: u64)
    ensures
        spec_max(a, b) == a || spec_max(a, b) == b,
        !spec_lt(spec_max(a, b), a),
        !spec_lt(spec_max(a, b), b),
        spec_is_nan(spec_max(a, b)) ==> spec_is_nan(a) && spec_is_nan(b),
{
}

/// The bits of a single-precision float without the sign bit.
pub open spec fn magnitude_single(bits: u32) -> u32 {
    if bits >= SIGN_BIT_SINGLE {
        (bits - SIGN_BIT_SINGLE) as u32
    } else {
        bits
    }
}

/// Whether the bits are those of a single-precision float that is not a
/// number.
pub open spec fn spec_is_nan_single(bits: u32) -> bool {
    magnitude_single(bits) > INFINITY_SINGLE
}

/// Where a single-precision float that is a number lies among the numbers.
pub open spec fn place_single(bits: u32) -> int {
    if bits >= SIGN_BIT_SINGLE {
        -(magnitude_single(bits) as int)
    } else {
        bits as int
    }
}

/// Whether the first single-precision float is less than the second.
pub open spec fn spec_lt_single(a: u32, b: u32) -> bool {
    !spec_is_nan_single(a) && !spec_is_nan_single(b) && place_single(a) < place_single(b)
}

/// A value that is held at or above a floor: the floor takes the place of
/// what is below it and of what is not a number.
pub open spec fn spec_floor_at_single(value: u32, floor: u32) -> u32 {
    if spec_is_nan_single(value) || spec_lt_single(value, floor) {
        floor
    } else {
        value
    }
}

/// Holds a single-precision float at or above a floor that is a positive
/// number.
pub fn floor_at_single(value: u32, floor: u32) -> (held: u32)
    requires
        0 < floor <= INFINITY_SINGLE,
    ensures
        held == spec_floor_at_single(value, floor),
        !spec_is_nan_single(held),
        !spec_lt_single(held, floor),
        floor <= held <= INFINITY_SINGLE,
{
    let magnitude = if value >= SIGN_BIT_SINGLE {
        value - SIGN_BIT_SINGLE
    } else {
        value
    };
    if magnitude > INFINITY_SINGLE {
        floor
    } else if value >= SIGN_BIT_SINGLE || value < floor {
        floor
    } else {
        value
    }
}


/// Holding two numbers at one floor keeps their order: where the first is
/// less than the second, what is held of the second is not less than what is
/// held of the first. What is held of a value above the floor is the value.
pub proof fn lemma_floor_keeps_order(a: u32, b: u32, floor: u32)
    requires
        0 < floor <= INFINITY_SINGLE,
    ensures
        spec_lt_single(a, b) ==> !spec_lt_single(
            spec_floor_at_single(b, floor),
            spec_floor_at_single(a, floor),
        ),
        spec_lt_single(floor, a) ==> spec_floor_at_single(a, floor) == a,
        spec_floor_at_single(spec_floor_at_single(a, floor), floor) == spec_floor_at_single(
            a,
            floor,
        ),
{
}

/// Whether the first single-precision float is less than the second. Nothing
/// is less or more than what is not a number.
pub fn lt_single(a: u32, b: u32) -> (less: bool)
    ensures
        less == spec_lt_single(a, b),
{
    let magnitude_a = if a >= SIGN_BIT_SINGLE {
        a - SIGN_BIT_SINGLE
    } else {
        a
    };
    let magnitude_b = if b >= SIGN_BIT_SINGLE {
        b - SIGN_BIT_SINGLE
    } else {
        b
    };
    if magnitude_a > INFINITY_SINGLE || magnitude_b > INFINITY_SINGLE {
        return false;
    }
    let place_a: i64 = if a >= SIGN_BIT_SINGLE {
        -(magnitude_a as i64)
    } else {
        a as i64
    };
    let place_b: i64 = if b >= SIGN_BIT_SINGLE {
        -(magnitude_b as i64)
    } else {
        b as i64
    };
    place_a < place_b
}

} // verus!
