use vstd::prelude::*;

use crate::util::float_bits::{lemma_lt_is_strict_order, lt, spec_is_nan, spec_lt};

verus! {

/// The candidate that came closest so far, and how close it came: the
/// distance as the bits of a double. No candidate has come closer than the
/// distance that a search starts with as long as none is found.
#[derive(Copy, Clone, Debug, PartialEq, Eq, Structural)]
pub struct Closest {
    pub dist: u64,
    pub found: Option<u32>,
}

/// What came closest once one more candidate is looked at: the candidate, if
/// its distance is less than the least one so far.
pub open spec fn spec_consider(best: Closest, candidate: u32, dist: u64) -> Closest {
    if spec_lt(dist, best.dist) {
        Closest { dist, found: Some(candidate) }
    } else {
        best
    }
}

/// What came closest once the candidates `lo`, `lo + 1` and so on were
/// looked at in this order, given their distances.
pub open spec fn spec_scan(start: Closest, lo: u32, dists: Seq<u64>) -> Closest
    decreases dists.len(),
{
    if dists.len() == 0 {
        start
    } else {
        spec_consider(
            spec_scan(start, lo, dists.drop_last()),
            (lo + dists.len() - 1) as u32,
            dists.last(),
        )
    }
}

/// How many candidates lie between `lo` and `hi`, both included.
pub open spec fn range_len(lo: u32, hi: u32) -> nat {
    if lo <= hi {
        (hi - lo + 1) as nat
    } else {
        0
    }
}

/// Whether `best` is what came closest once the candidates from `lo` up to
/// `hi` were looked at in rising order, where `dists` are distances that
/// `dist` has for them.
pub open spec fn scanned<D: Fn(u32) -> u64>(
    start: Closest,
    lo: u32,
    hi: u32,
    dist: &D,
    dists: Seq<u64>,
    best: Closest,
) -> bool {
    &&& dists.len() == range_len(lo, hi)
    &&& forall|i: int|
        0 <= i < dists.len() ==> call_ensures(dist, ((lo + i) as u32,), #[trigger] dists[i])
    &&& best == spec_scan(start, lo, dists)
}

/// Looks at one more candidate.
pub fn consider(best: Closest, candidate: u32, dist: u64) -> (next: Closest)
    ensures
        next == spec_consider(best, candidate, dist),
{
    if lt(dist, best.dist) {
        Closest { dist, found: Some(candidate) }
    } else {
        best
    }
}

/// Looks at the candidates from `lo` up to `hi` in rising order and hands
/// back the first one that came closest, if any came closer than the
/// distance to start with.
pub fn scan<D: Fn(u32) -> u64>(start: Closest, lo: u32, hi: u32, dist: &D) -> (best: Closest)
    requires
        forall|c: u32| lo <= c <= hi ==> call_requires(dist, (c,)),
    ensures
        exists|dists: Seq<u64>| #[trigger] scanned(start, lo, hi, dist, dists, best),
{
    let mut best = start;
    let ghost mut dists: Seq<u64> = Seq::empty();
    if lo <= hi {
        let mut c = lo;
        loop
            invariant_except_break
                dists.len() == c - lo,
                forall|i: int|
                    0 <= i < dists.len() ==> call_ensures(
                        dist,
                        ((lo + i) as u32,),
                        #[trigger] dists[i],
                    ),
                best == spec_scan(start, lo, dists),
            invariant
                lo <= c <= hi,
                forall|c: u32| lo <= c <= hi ==> call_requires(dist, (c,)),
            ensures
                dists.len() == hi - lo + 1,
                forall|i: int|
                    0 <= i < dists.len() ==> call_ensures(
                        dist,
                        ((lo + i) as u32,),
                        #[trigger] dists[i],
                    ),
                best == spec_scan(start, lo, dists),
            decreases hi - c,
        {
            let d = dist(c);
            proof {
                assert(dists.push(d).drop_last() =~= dists);
                dists = dists.push(d);
            }
            best = consider(best, c, d);
            if c == hi {
                break;
            }
            c += 1;
        }
    }
    assert(scanned(start, lo, hi, dist, dists, best));
    best
}

/// A candidate that a scan has found is one of those that it looked at.
pub proof fn lemma_scan_within(start: Closest, lo: u32, dists: Seq<u64>)
    requires
        lo + dists.len() <= u32::MAX + 1,
    ensures
        spec_scan(start, lo, dists).found == start.found || (spec_scan(
            start,
            lo,
            dists,
        ).found matches Some(c) && lo <= c < lo + dists.len()),
    decreases dists.len(),
{
    if dists.len() > 0 {
        lemma_scan_within(start, lo, dists.drop_last());
    }
}

/// What a scan hands back came as close as any candidate: no candidate and
/// not the distance to start with is less than its distance. Unless nothing
/// changes, a candidate is handed back whose distance is the one that came
/// with it and less than the distance to start with, and every candidate
/// before it is farther off or has a distance that is not a number.
pub proof fn lemma_scan_is_closest(start: Closest, lo: u32, dists: Seq<u64>)
    requires
        lo + dists.len() <= u32::MAX + 1,
        !spec_is_nan(start.dist),
    ensures
        ({
            let best = spec_scan(start, lo, dists);
            &&& !spec_is_nan(best.dist)
            &&& !spec_lt(start.dist, best.dist)
            &&& forall|i: int| 0 <= i < dists.len() ==> !spec_lt(#[trigger] dists[i], best.dist)
            &&& best == start || (best.found matches Some(c) && lo <= c < lo + dists.len()
                && best.dist == dists[c - lo] && spec_lt(best.dist, start.dist) && forall|i: int|
                0 <= i < c - lo ==> spec_lt(best.dist, #[trigger] dists[i]) || spec_is_nan(
                    dists[i],
                ))
        }),
    decreases dists.len(),
{
    if dists.len() > 0 {
        let front = dists.drop_last();
        lemma_scan_is_closest(start, lo, front);
        let prev = spec_scan(start, lo, front);
        let best = spec_scan(start, lo, dists);
        let last = dists.last();
        assert forall|i: int| 0 <= i < dists.len() implies !spec_lt(
            #[trigger] dists[i],
            best.dist,
        ) by {
            if i < front.len() {
                assert(front[i] == dists[i]);
                lemma_lt_is_strict_order(dists[i], best.dist, prev.dist);
            } else {
                lemma_lt_is_strict_order(last, best.dist, prev.dist);
            }
        }
        lemma_lt_is_strict_order(start.dist, prev.dist, best.dist);
        lemma_lt_is_strict_order(best.dist, prev.dist, start.dist);
        if spec_lt(last, prev.dist) {
            let c = (lo + dists.len() - 1) as u32;
            assert forall|i: int| 0 <= i < c - lo implies spec_lt(best.dist, #[trigger] dists[i])
                || spec_is_nan(dists[i]) by {
                assert(front[i] == dists[i]);
                assert(!spec_lt(front[i], prev.dist));
                lemma_lt_is_strict_order(best.dist, prev.dist, dists[i]);
                lemma_lt_is_strict_order(dists[i], prev.dist, best.dist);
            }
        } else {
            if prev != start {
                let c = prev.found.unwrap();
                assert forall|i: int| 0 <= i < c - lo implies spec_lt(
                    best.dist,
                    #[trigger] dists[i],
                ) || spec_is_nan(dists[i]) by {
                    assert(front[i] == dists[i]);
                }
                assert(front[c - lo] == dists[c - lo]);
            }
        }
    }
}

/// The pair of candidates that came closest so far, and how close it came.
#[derive(Copy, Clone, Debug)]
pub struct Closest2 {
    pub dist: u64,
    pub found: Option<(u32, u32)>,
}

/// The triple of candidates that came closest so far, and how close it came.
#[derive(Copy, Clone, Debug)]
pub struct Closest3 {
    pub dist: u64,
    pub found: Option<(u32, u32, u32)>,
}

/// What is left of `a` once `b` is taken away, and nothing if `b` is more.
pub open spec fn spec_rest(a: u32, b: u32) -> u32 {
    if a >= b {
        (a - b) as u32
    } else {
        0
    }
}

/// The least and the largest candidate of an inner search, from the two that
/// the wanted accuracy alone asks for: neither is more than `limit` leaves
/// once `taken` is taken away.
pub open spec fn spec_clamp(raw: (u32, u32), limit: u32, taken: u32) -> (u32, u32) {
    let rest = spec_rest(limit, taken);
    (
        if raw.0 <= rest {
            raw.0
        } else {
            rest
        },
        if raw.1 <= rest {
            raw.1
        } else {
            rest
        },
    )
}

/// What one first candidate `a` holds of a search over pairs: the bounds
/// that were asked for its second candidates, and their distances.
pub type Row = ((u32, u32), Seq<u64>);

/// What came closest once the second candidates of `a` were looked at.
pub open spec fn spec_consider_row(best: Closest2, a: u32, limit: u32, row: Row) -> Closest2 {
    let inner = spec_scan(
        Closest { dist: best.dist, found: None },
        spec_clamp(row.0, limit, a).0,
        row.1,
    );
    match inner.found {
        Some(b) => Closest2 { dist: inner.dist, found: Some((a, b)) },
        None => best,
    }
}

/// What came closest once the first candidates `lo`, `lo + 1` and so on
/// were looked at in this order, each with its second candidates.
pub open spec fn spec_scan2(start: Closest2, lo: u32, limit: u32, rows: Seq<Row>) -> Closest2
    decreases rows.len(),
{
    if rows.len() == 0 {
        start
    } else {
        spec_consider_row(
            spec_scan2(start, lo, limit, rows.drop_last()),
            (lo + rows.len() - 1) as u32,
            limit,
            rows.last(),
        )
    }
}

/// Whether `row` holds what `bounds` and `dist` have for the first candidate
/// `a`: bounds for its second candidates, and a distance for each second
/// candidate between them.
pub open spec fn row_of<B: Fn(u32) -> (u32, u32), D: Fn(u32, u32) -> u64>(
    a: u32,
    limit: u32,
    bounds: &B,
    dist: &D,
    row: Row,
) -> bool {
    let (lo, hi) = spec_clamp(row.0, limit, a);
    &&& call_ensures(bounds, (a,), row.0)
    &&& row.1.len() == range_len(lo, hi)
    &&& forall|j: int|
        0 <= j < row.1.len() ==> call_ensures(dist, (a, (lo + j) as u32), #[trigger] row.1[j])
}

/// Whether `best` is what came closest once the first candidates from `lo`
/// up to `hi` were looked at in rising order, each with its second
/// candidates in rising order.
pub open spec fn scanned2<B: Fn(u32) -> (u32, u32), D: Fn(u32, u32) -> u64>(
    start: Closest2,
    lo: u32,
    hi: u32,
    limit: u32,
    bounds: &B,
    dist: &D,
    rows: Seq<Row>,
    best: Closest2,
) -> bool {
    &&& rows.len() == range_len(lo, hi)
    &&& forall|i: int|
        0 <= i < rows.len() ==> row_of((lo + i) as u32, limit, bounds, dist, #[trigger] rows[i])
    &&& best == spec_scan2(start, lo, limit, rows)
}

/// A search over pairs of candidates. For each first candidate from `lo` up
/// to `hi`, `bounds` says which second candidates the wanted accuracy asks
/// for; none of them is taken beyond what `limit` leaves once the first
/// candidate is taken away. `dist` says how far a pair is from the wanted
/// accuracy. Of the pairs that come closest the first one is handed back, if
/// any came closer than the distance to start with.
pub fn scan2<B: Fn(u32) -> (u32, u32), D: Fn(u32, u32) -> u64>(
    start: Closest2,
    lo: u32,
    hi: u32,
    limit: u32,
    bounds: &B,
    dist: &D,
) -> (best: Closest2)
    requires
        forall|a: u32| lo <= a <= hi ==> call_requires(bounds, (a,)),
        forall|a: u32, b: u32|
            lo <= a <= hi && b <= spec_rest(limit, a) ==> call_requires(dist, (a, b)),
    ensures
        exists|rows: Seq<Row>| #[trigger] scanned2(start, lo, hi, limit, bounds, dist, rows, best),
{
    let mut best = start;
    let ghost mut rows: Seq<Row> = Seq::empty();
    if lo <= hi {
        let mut a = lo;
        loop
            invariant_except_break
                rows.len() == a - lo,
                forall|i: int|
                    0 <= i < rows.len() ==> row_of(
                        (lo + i) as u32,
                        limit,
                        bounds,
                        dist,
                        #[trigger] rows[i],
                    ),
                best == spec_scan2(start, lo, limit, rows),
            invariant
                lo <= a <= hi,
                forall|a: u32| lo <= a <= hi ==> call_requires(bounds, (a,)),
                forall|a: u32, b: u32|
                    lo <= a <= hi && b <= spec_rest(limit, a) ==> call_requires(dist, (a, b)),
            ensures
                rows.len() == hi - lo + 1,
                forall|i: int|
                    0 <= i < rows.len() ==> row_of(
                        (lo + i) as u32,
                        limit,
                        bounds,
                        dist,
                        #[trigger] rows[i],
                    ),
                best == spec_scan2(start, lo, limit, rows),
            decreases hi - a,
        {
            let raw = bounds(a);
            let rest = if limit >= a {
                limit - a
            } else {
                0
            };
            let lo2 = if raw.0 <= rest {
                raw.0
            } else {
                rest
            };
            let hi2 = if raw.1 <= rest {
                raw.1
            } else {
                rest
            };
            let of_a = |b: u32| -> (d: u64)
                requires
                    call_requires(dist, (a, b)),
                ensures
                    call_ensures(dist, (a, b), d),
                { dist(a, b) };
            let inner_start = Closest { dist: best.dist, found: None };
            let inner = scan(inner_start, lo2, hi2, &of_a);
            proof {
                let dists = choose|dists: Seq<u64>| scanned(inner_start, lo2, hi2, &of_a, dists, inner);
                let row: Row = (raw, dists);
                assert forall|j: int| 0 <= j < dists.len() implies call_ensures(
                    dist,
                    (a, (lo2 + j) as u32),
                    #[trigger] dists[j],
                ) by {
                    assert(call_ensures(of_a, ((lo2 + j) as u32,), dists[j]));
                }
                assert(row_of(a, limit, bounds, dist, row));
                assert(rows.push(row).drop_last() =~= rows);
                rows = rows.push(row);
            }
            best =
            match inner.found {
                Some(b) => Closest2 { dist: inner.dist, found: Some((a, b)) },
                None => best,
            };
            if a == hi {
                break;
            }
            a += 1;
        }
    }
    assert(scanned2(start, lo, hi, limit, bounds, dist, rows, best));
    best
}

/// A pair that a search has found is one of those that it looked at: the
/// first candidate lies in its range and the second one is no more than the
/// limit leaves.
pub proof fn lemma_scan2_within(start: Closest2, lo: u32, limit: u32, rows: Seq<Row>)
    requires
        lo + rows.len() <= u32::MAX + 1,
        forall|i: int|
            0 <= i < rows.len() ==> (#[trigger] rows[i]).1.len() == range_len(
                spec_clamp(rows[i].0, limit, (lo + i) as u32).0,
                spec_clamp(rows[i].0, limit, (lo + i) as u32).1,
            ),
    ensures
        spec_scan2(start, lo, limit, rows).found == start.found || (spec_scan2(
            start,
            lo,
            limit,
            rows,
        ).found matches Some(pair) && lo <= pair.0 < lo + rows.len() && pair.1 <= spec_rest(
            limit,
            pair.0,
        )),
    decreases rows.len(),
{
    if rows.len() > 0 {
        let front = rows.drop_last();
        assert forall|i: int| 0 <= i < front.len() implies (#[trigger] front[i]).1.len()
            == range_len(
            spec_clamp(front[i].0, limit, (lo + i) as u32).0,
            spec_clamp(front[i].0, limit, (lo + i) as u32).1,
        ) by {
            assert(front[i] == rows[i]);
        }
        lemma_scan2_within(start, lo, limit, front);
        let a = (lo + rows.len() - 1) as u32;
        let row = rows.last();
        assert(row == rows[rows.len() - 1]);
        let best = spec_scan2(start, lo, limit, front);
        lemma_scan_within(
            Closest { dist: best.dist, found: None },
            spec_clamp(row.0, limit, a).0,
            row.1,
        );
    }
}

/// What one first candidate `a` holds of a search over triples: the bounds
/// that were asked for its second candidates, and what each of them holds.
pub type Plane = ((u32, u32), Seq<Row>);

/// What came closest once the second and third candidates of `a` were
/// looked at.
pub open spec fn spec_consider_plane(best: Closest3, a: u32, limit: u32, plane: Plane)
    -> Closest3 {
    let inner = spec_scan2(
        Closest2 { dist: best.dist, found: None },
        spec_clamp(plane.0, limit, a).0,
        spec_rest(limit, a),
        plane.1,
    );
    match inner.found {
        Some(pair) => Closest3 { dist: inner.dist, found: Some((a, pair.0, pair.1)) },
        None => best,
    }
}

/// What came closest once the first candidates `lo`, `lo + 1` and so on
/// were looked at in this order, each with its second and third candidates.
pub open spec fn spec_scan3(start: Closest3, lo: u32, limit: u32, planes: Seq<Plane>) -> Closest3
    decreases planes.len(),
{
    if planes.len() == 0 {
        start
    } else {
        spec_consider_plane(
            spec_scan3(start, lo, limit, planes.drop_last()),
            (lo + planes.len() - 1) as u32,
            limit,
            planes.last(),
        )
    }
}

/// Whether `row` holds what `bounds` and `dist` have for the candidates `a`
/// and `b`: bounds for the third candidates, and a distance for each third
/// candidate between them.
pub open spec fn row_of_pair<B: Fn(u32, u32) -> (u32, u32), D: Fn(u32, u32, u32) -> u64>(
    a: u32,
    b: u32,
    limit: u32,
    bounds: &B,
    dist: &D,
    row: Row,
) -> bool {
    let (lo, hi) = spec_clamp(row.0, limit, b);
    &&& call_ensures(bounds, (a, b), row.0)
    &&& row.1.len() == range_len(lo, hi)
    &&& forall|j: int|
        0 <= j < row.1.len() ==> call_ensures(dist, (a, b, (lo + j) as u32), #[trigger] row.1[j])
}

/// Whether `plane` holds what the bounds and `dist` have for the first
/// candidate `a`.
pub open spec fn plane_of<
    B: Fn(u32) -> (u32, u32),
    C: Fn(u32, u32) -> (u32, u32),
    D: Fn(u32, u32, u32) -> u64,
>(a: u32, limit: u32, bounds_b: &B, bounds_c: &C, dist: &D, plane: Plane) -> bool {
    let (lo, hi) = spec_clamp(plane.0, limit, a);
    &&& call_ensures(bounds_b, (a,), plane.0)
    &&& plane.1.len() == range_len(lo, hi)
    &&& forall|j: int|
        0 <= j < plane.1.len() ==> row_of_pair(
            a,
            (lo + j) as u32,
            spec_rest(limit, a),
            bounds_c,
            dist,
            #[trigger] plane.1[j],
        )
}

/// Whether `best` is what came closest once the first candidates from `lo`
/// up to `hi` were looked at in rising order, each with its second and third
/// candidates in rising order.
pub open spec fn scanned3<
    B: Fn(u32) -> (u32, u32),
    C: Fn(u32, u32) -> (u32, u32),
    D: Fn(u32, u32, u32) -> u64,
>(
    start: Closest3,
    lo: u32,
    hi: u32,
    limit: u32,
    bounds_b: &B,
    bounds_c: &C,
    dist: &D,
    planes: Seq<Plane>,
    best: Closest3,
) -> bool {
    &&& planes.len() == range_len(lo, hi)
    &&& forall|i: int|
        0 <= i < planes.len() ==> plane_of(
            (lo + i) as u32,
            limit,
            bounds_b,
            bounds_c,
            dist,
            #[trigger] planes[i],
        )
    &&& best == spec_scan3(start, lo, limit, planes)
}

/// A search over triples of candidates. For each first candidate from `lo`
/// up to `hi`, `bounds_b` says which second candidates the wanted accuracy
/// asks for, and for each pair `bounds_c` says which third ones. No
/// candidate is taken beyond what `limit` leaves once the candidates before
/// it are taken away. `dist` says how far a triple is from the wanted
/// accuracy. Of the triples that come closest the first one is handed back,
/// if any came closer than the distance to start with.
pub fn scan3<
    B: Fn(u32) -> (u32, u32),
    C: Fn(u32, u32) -> (u32, u32),
    D: Fn(u32, u32, u32) -> u64,
>(
    start: Closest3,
    lo: u32,
    hi: u32,
    limit: u32,
    bounds_b: &B,
    bounds_c: &C,
    dist: &D,
) -> (best: Closest3)
    requires
        forall|a: u32| lo <= a <= hi ==> call_requires(bounds_b, (a,)),
        forall|a: u32, b: u32|
            lo <= a <= hi && b <= spec_rest(limit, a) ==> call_requires(bounds_c, (a, b)),
        forall|a: u32, b: u32, c: u32|
            lo <= a <= hi && b <= spec_rest(limit, a) && c <= spec_rest(spec_rest(limit, a), b)
                ==> call_requires(dist, (a, b, c)),
    ensures
        exists|planes: Seq<Plane>| #[trigger]
            scanned3(start, lo, hi, limit, bounds_b, bounds_c, dist, planes, best),
{
    let mut best = start;
    let ghost mut planes: Seq<Plane> = Seq::empty();
    if lo <= hi {
        let mut a = lo;
        loop
            invariant_except_break
                planes.len() == a - lo,
                forall|i: int|
                    0 <= i < planes.len() ==> plane_of(
                        (lo + i) as u32,
                        limit,
                        bounds_b,
                        bounds_c,
                        dist,
                        #[trigger] planes[i],
                    ),
                best == spec_scan3(start, lo, limit, planes),
            invariant
                lo <= a <= hi,
                forall|a: u32| lo <= a <= hi ==> call_requires(bounds_b, (a,)),
                forall|a: u32, b: u32|
                    lo <= a <= hi && b <= spec_rest(limit, a) ==> call_requires(bounds_c, (a, b)),
                forall|a: u32, b: u32, c: u32|
                    lo <= a <= hi && b <= spec_rest(limit, a) && c <= spec_rest(
                        spec_rest(limit, a),
                        b,
                    ) ==> call_requires(dist, (a, b, c)),
            ensures
                planes.len() == hi - lo + 1,
                forall|i: int|
                    0 <= i < planes.len() ==> plane_of(
                        (lo + i) as u32,
                        limit,
                        bounds_b,
                        bounds_c,
                        dist,
                        #[trigger] planes[i],
                    ),
                best == spec_scan3(start, lo, limit, planes),
            decreases hi - a,
        {
            let raw = bounds_b(a);
            let rest = if limit >= a {
                limit - a
            } else {
                0
            };
            let lo2 = if raw.0 <= rest {
                raw.0
            } else {
                rest
            };
            let hi2 = if raw.1 <= rest {
                raw.1
            } else {
                rest
            };
            let bounds_of_a = |b: u32| -> (raw: (u32, u32))
                requires
                    call_requires(bounds_c, (a, b)),
                ensures
                    call_ensures(bounds_c, (a, b), raw),
                { bounds_c(a, b) };
            let dist_of_a = |b: u32, c: u32| -> (d: u64)
                requires
                    call_requires(dist, (a, b, c)),
                ensures
                    call_ensures(dist, (a, b, c), d),
                { dist(a, b, c) };
            let inner_start = Closest2 { dist: best.dist, found: None };
            let inner = scan2(inner_start, lo2, hi2, rest, &bounds_of_a, &dist_of_a);
            proof {
                let rows = choose|rows: Seq<Row>|
                    scanned2(inner_start, lo2, hi2, rest, &bounds_of_a, &dist_of_a, rows, inner);
                let plane: Plane = (raw, rows);
                assert forall|j: int| 0 <= j < rows.len() implies row_of_pair(
                    a,
                    (lo2 + j) as u32,
                    rest,
                    bounds_c,
                    dist,
                    #[trigger] rows[j],
                ) by {
                    let b = (lo2 + j) as u32;
                    let row = rows[j];
                    assert(row_of(b, rest, &bounds_of_a, &dist_of_a, row));
                    let lo3 = spec_clamp(row.0, rest, b).0;
                    assert forall|k: int| 0 <= k < row.1.len() implies call_ensures(
                        dist,
                        (a, b, (lo3 + k) as u32),
                        #[trigger] row.1[k],
                    ) by {
                        assert(call_ensures(dist_of_a, (b, (lo3 + k) as u32), row.1[k]));
                    }
                }
                assert(plane_of(a, limit, bounds_b, bounds_c, dist, plane));
                assert(planes.push(plane).drop_last() =~= planes);
                planes = planes.push(plane);
            }
            best =
            match inner.found {
                Some(pair) => Closest3 { dist: inner.dist, found: Some((a, pair.0, pair.1)) },
                None => best,
            };
            if a == hi {
                break;
            }
            a += 1;
        }
    }
    assert(scanned3(start, lo, hi, limit, bounds_b, bounds_c, dist, planes, best));
    best
}


/// Whether each row of a plane has as many distances as its bounds ask for.
pub open spec fn rows_fit(rows: Seq<Row>, lo: u32, limit: u32) -> bool {
    forall|j: int|
        0 <= j < rows.len() ==> (#[trigger] rows[j]).1.len() == range_len(
            spec_clamp(rows[j].0, limit, (lo + j) as u32).0,
            spec_clamp(rows[j].0, limit, (lo + j) as u32).1,
        )
}

/// A triple that a search has found is one of those that it looked at: the
/// first candidate lies in its range, and the second and the third one are
/// no more than the limit leaves.
pub proof fn lemma_scan3_within(start: Closest3, lo: u32, limit: u32, planes: Seq<Plane>)
    requires
        lo + planes.len() <= u32::MAX + 1,
        forall|i: int|
            0 <= i < planes.len() ==> {
                let a = (lo + i) as u32;
                let plane = #[trigger] planes[i];
                let b_lo = spec_clamp(plane.0, limit, a).0;
                &&& plane.1.len() == range_len(b_lo, spec_clamp(plane.0, limit, a).1)
                &&& rows_fit(plane.1, b_lo, spec_rest(limit, a))
            },
    ensures
        spec_scan3(start, lo, limit, planes).found == start.found || (spec_scan3(
            start,
            lo,
            limit,
            planes,
        ).found matches Some(triple) && lo <= triple.0 < lo + planes.len() && triple.1
            <= spec_rest(limit, triple.0) && triple.2 <= spec_rest(
            spec_rest(limit, triple.0),
            triple.1,
        )),
    decreases planes.len(),
{
    if planes.len() > 0 {
        let front = planes.drop_last();
        assert forall|i: int| 0 <= i < front.len() implies {
            let a = (lo + i) as u32;
            let plane = #[trigger] front[i];
            let b_lo = spec_clamp(plane.0, limit, a).0;
            &&& plane.1.len() == range_len(b_lo, spec_clamp(plane.0, limit, a).1)
            &&& rows_fit(plane.1, b_lo, spec_rest(limit, a))
        } by {
            assert(front[i] == planes[i]);
        }
        lemma_scan3_within(start, lo, limit, front);
        let a = (lo + planes.len() - 1) as u32;
        let plane = planes.last();
        assert(plane == planes[planes.len() - 1]);
        let best = spec_scan3(start, lo, limit, front);
        let b_lo = spec_clamp(plane.0, limit, a).0;
        lemma_scan2_within(
            Closest2 { dist: best.dist, found: None },
            b_lo,
            spec_rest(limit, a),
            plane.1,
        );
    }
}

} // verus!
