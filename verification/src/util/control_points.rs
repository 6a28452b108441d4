use vstd::prelude::*;

verus! {

/// The sign bit of a double.
pub const SIGN_BIT: u64 = 0x8000_0000_0000_0000;

/// The place of a double, given by its bits, in the total order of doubles:
/// the larger double has the larger key, negative zero comes right before
/// positive zero, and what is not a number lies beyond the infinities.
pub open spec fn spec_time_key(bits: u64) -> int {
    if bits < SIGN_BIT {
        bits as int
    } else {
        -(bits - SIGN_BIT) - 1
    }
}

/// The place of a double, given by its bits, in the total order of doubles.
pub fn time_key(bits: u64) -> (key: i64)
    ensures
        key == spec_time_key(bits),
{
    if bits < SIGN_BIT {
        bits as i64
    } else {
        -((bits - SIGN_BIT) as i64) - 1
    }
}

/// Keys of different doubles differ, and among doubles of one sign the order
/// of the keys is that of the magnitudes: the same for those without a sign
/// bit, reversed for those with it.
pub proof fn lemma_time_key_order(a: u64, b: u64)
    ensures
        spec_time_key(a) == spec_time_key(b) <==> a == b,
        a < SIGN_BIT && b < SIGN_BIT ==> (spec_time_key(a) < spec_time_key(b) <==> a < b),
        a >= SIGN_BIT && b >= SIGN_BIT ==> (spec_time_key(a) < spec_time_key(b) <==> a > b),
        a >= SIGN_BIT && b < SIGN_BIT ==> spec_time_key(a) < spec_time_key(b),
{
}

/// Whether the keys never fall.
pub open spec fn sorted(keys: Seq<i64>) -> bool {
    forall|i: int, j: int| 0 <= i <= j < keys.len() ==> keys[i] <= keys[j]
}

/// Whether every key is after `key`.
pub open spec fn all_after(keys: Seq<i64>, key: i64) -> bool {
    forall|j: int| 0 <= j < keys.len() ==> keys[j] > key
}

/// Whether the point at `index` is in effect at `key`: it is not after
/// `key`, and no point that is not after `key` is later than it.
pub open spec fn in_effect(keys: Seq<i64>, key: i64, index: int) -> bool {
    &&& 0 <= index < keys.len()
    &&& keys[index] <= key
    &&& forall|j: int| 0 <= j < keys.len() && keys[j] <= key ==> keys[j] <= keys[index]
}

/// Looks a key up with the standard library's `binary_search` on slices.
/// On keys that never fall, a found index holds the key, and an index that
/// is handed back for a key that was not found parts the smaller keys from
/// the larger ones. On other keys nothing is known of the answer.
#[verifier::external_body]
fn binary_search(keys: &[i64], key: i64) -> (found: Result<usize, usize>)
    ensures
        sorted(keys@) ==> match found {
            Ok(i) => i < keys@.len() && keys@[i as int] == key,
            Err(i) => {
                &&& i <= keys@.len()
                &&& forall|j: int| 0 <= j < i ==> keys@[j] < key
                &&& forall|j: int| i <= j < keys@.len() ==> keys@[j] > key
            },
        },
{
    keys.binary_search(&key)
}

/// The point that is looked up on keys that never fall: the point in effect
/// where there is one, and nothing before the first point.
pub open spec fn spec_point_at(keys: Seq<i64>, key: i64, found: Option<usize>) -> bool {
    if all_after(keys, key) {
        found is None
    } else {
        found matches Some(i) && in_effect(keys, key, i as int)
    }
}

/// The index of the point in effect at a time, among points given by the
/// keys of their times in rising order.
fn point_at(keys: &[i64], key: i64) -> (found: Option<usize>)
    ensures
        found matches Some(i) ==> i < keys@.len(),
        sorted(keys@) ==> spec_point_at(keys@, key, found),
{
    let i = match binary_search(keys, key) {
        Ok(i) => Some(i),
        Err(i) => if i > 0 {
            Some((i - 1) as usize)
        } else {
            None
        },
    };

    match i {
        Some(i) => if i < keys.len() {
            Some(i)
        } else {
            None
        },
        None => None,
    }
}

/// The index of the timing point in effect at a time, among points given by
/// the keys of their times in rising order. Before the first point, none is
/// in effect, and the caller falls back on its default beat length.
pub fn timing_point_at(keys: &[i64], key: i64) -> (found: Option<usize>)
    ensures
        found matches Some(i) ==> i < keys@.len(),
        sorted(keys@) ==> spec_point_at(keys@, key, found),
{
    point_at(keys, key)
}

/// The index of the difficulty point in effect at a time, among points given
/// by the keys of their times in rising order. Before the first point, none
/// is in effect, and the caller falls back on its default slider velocity.
pub fn difficulty_point_at(keys: &[i64], key: i64) -> (found: Option<usize>)
    ensures
        found matches Some(i) ==> i < keys@.len(),
        sorted(keys@) ==> spec_point_at(keys@, key, found),
{
    point_at(keys, key)
}

/// With points at rising times, a time before the first has no point, and a
/// time from the first on has the last point that is not after it: every
/// later point is after the time.
pub proof fn lemma_point_in_effect(keys: Seq<i64>, key: i64, found: Option<usize>)
    requires
        sorted(keys),
        spec_point_at(keys, key, found),
    ensures
        found is None <==> (keys.len() == 0 || key < keys[0]),
        found matches Some(i) ==> keys[i as int] <= key && forall|j: int|
            i < j < keys.len() && keys[j] != keys[i as int] ==> keys[j] > key,
{
    if keys.len() > 0 && all_after(keys, key) {
        assert(keys[0] > key);
    }
    if keys.len() > 0 && key < keys[0] {
        assert forall|j: int| 0 <= j < keys.len() implies keys[j] > key by {
            assert(keys[0] <= keys[j]);
        }
    }
    if let Some(i) = found {
        assert forall|j: int| i < j < keys.len() && keys[j] != keys[i as int] implies keys[j]
            > key by {
            assert(keys[i as int] <= keys[j]);
            if keys[j] <= key {
                assert(keys[j] <= keys[i as int]);
            }
        }
    }
}

} // verus!
