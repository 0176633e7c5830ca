use vstd::prelude::*;

use crate::texture::{
    get_texture_side, get_texture_side_sodium, get_texture_top, get_texture_top_sodium,
    texture_side, texture_side_sodium, texture_top, texture_top_sodium,
};
use crate::utils::{Formation, InfoType, RotationInfo};

verus! {

/// Whether constraint `c` holds for the candidate origin `(x, y, z)`; offsets
/// are added with 32-bit wraparound. Under the alternate family a face
/// constraint must agree with both families, a side constraint with the
/// alternate one only.
pub open spec fn constraint_holds(sodium: bool, c: RotationInfo, x: i32, y: i32, z: i32) -> bool {
    let px = x.wrapping_add(c.x);
    let py = y.wrapping_add(c.y);
    let pz = z.wrapping_add(c.z);
    match c.info_type {
        InfoType::TopsAndBottoms => texture_top(px, py, pz) == c.rotation && (sodium
            ==> texture_top_sodium(px, py, pz) == c.rotation),
        InfoType::Sides => if sodium {
            texture_side_sodium(px, py, pz) == c.rotation
        } else {
            texture_side(px, py, pz) == c.rotation
        },
    }
}

/// Whether every constraint holds for the candidate origin `(x, y, z)`.
pub open spec fn is_match(sodium: bool, cs: Seq<RotationInfo>, x: i32, y: i32, z: i32) -> bool {
    forall|i: int| 0 <= i < cs.len() ==> #[trigger] constraint_holds(sodium, cs[i], x, y, z)
}

/// Whether `p` is a match of `f` whose x lies in `lo..=hi` and whose y and z
/// lie in the bounds of `f`.
pub open spec fn found_in(f: &Formation, lo: int, hi: int, p: (i32, i32, i32)) -> bool {
    &&& lo <= p.0 <= hi
    &&& f.y_min <= p.1 <= f.y_max
    &&& f.z_min <= p.2 <= f.z_max
    &&& is_match(f.sodium, f.rotation_info@, p.0, p.1, p.2)
}

/// `r` lists each match of `f` with x in `lo..=hi` exactly once, and nothing else.
pub open spec fn reports_columns(f: &Formation, lo: int, hi: int, r: Seq<(i32, i32, i32)>) -> bool {
    &&& r.no_duplicates()
    &&& forall|p: (i32, i32, i32)| r.contains(p) <==> found_in(f, lo, hi, p)
}

/// Whether `p` lies in the search box of `f`.
pub open spec fn in_box(f: &Formation, p: (i32, i32, i32)) -> bool {
    &&& f.x_min <= p.0 <= f.x_max
    &&& f.y_min <= p.1 <= f.y_max
    &&& f.z_min <= p.2 <= f.z_max
}

/// Checks one constraint against the candidate origin `(x, y, z)`.
pub fn satisfies(sodium: bool, c: &RotationInfo, x: i32, y: i32, z: i32) -> (r: bool)
    ensures
        r == constraint_holds(sodium, *c, x, y, z),
{
    let px = x.wrapping_add(c.x);
    let py = y.wrapping_add(c.y);
    let pz = z.wrapping_add(c.z);
    match c.info_type {
        InfoType::TopsAndBottoms => {
            if sodium && c.rotation != get_texture_top_sodium(px, py, pz) {
                false
            } else {
                c.rotation == get_texture_top(px, py, pz)
            }
        },
        InfoType::Sides => {
            if sodium {
                c.rotation == get_texture_side_sodium(px, py, pz)
            } else {
                c.rotation == get_texture_side(px, py, pz)
            }
        },
    }
}

/// Checks every constraint of `info` against the candidate origin `(x, y, z)`:
/// the face constraints first, then the side ones, stopping at the first
/// that fails.
pub fn matches_at(info: &Formation, x: i32, y: i32, z: i32) -> (r: bool)
    ensures
        r == is_match(info.sodium, info.rotation_info@, x, y, z),
{
    let n = info.rotation_info.len();
    let mut i: usize = 0;
    while i < n
        invariant
            n == info.rotation_info@.len(),
            i <= n,
            forall|j: int|
                0 <= j < i && info.rotation_info@[j].info_type == InfoType::TopsAndBottoms ==> constraint_holds(
                    info.sodium,
                    info.rotation_info@[j],
                    x,
                    y,
                    z,
                ),
        decreases n - i,
    {
        if info.rotation_info[i].info_type == InfoType::TopsAndBottoms && !satisfies(info.sodium, &info.rotation_info[i], x, y, z) {
            assert(!constraint_holds(info.sodium, info.rotation_info@[i as int], x, y, z));
            return false;
        }
        i = i + 1;
    }
    let mut i: usize = 0;
    while i < n
        invariant
            n == info.rotation_info@.len(),
            i <= n,
            forall|j: int|
                0 <= j < n && info.rotation_info@[j].info_type == InfoType::TopsAndBottoms ==> constraint_holds(
                    info.sodium,
                    info.rotation_info@[j],
                    x,
                    y,
                    z,
                ),
            forall|j: int| 0 <= j < i ==> constraint_holds(info.sodium, info.rotation_info@[j], x, y, z),
        decreases n - i,
    {
        if info.rotation_info[i].info_type == InfoType::Sides && !satisfies(info.sodium, &info.rotation_info[i], x, y, z) {
            assert(!constraint_holds(info.sodium, info.rotation_info@[i as int], x, y, z));
            return false;
        }
        i = i + 1;
    }
    true
}

proof fn lemma_push_unique(s: Seq<(i32, i32, i32)>, p: (i32, i32, i32))
    requires
        s.no_duplicates(),
        !s.contains(p),
    ensures
        s.push(p).no_duplicates(),
        forall|q: (i32, i32, i32)| s.push(p).contains(q) <==> (s.contains(q) || q == p),
{
    let t = s.push(p);
    assert forall|i: int, j: int| 0 <= i < t.len() && 0 <= j < t.len() && i != j implies t[i]
        != t[j] by {
        if i == s.len() as int {
            assert(s.contains(t[j]));
        } else if j == s.len() as int {
            assert(s.contains(t[i]));
        }
    }
    assert forall|q: (i32, i32, i32)| t.contains(q) implies (s.contains(q) || q == p) by {
        let k = choose|k: int| 0 <= k < t.len() && t[k] == q;
        if k < s.len() {
            assert(s[k] == q);
        }
    }
    assert forall|q: (i32, i32, i32)| (s.contains(q) || q == p) implies t.contains(q) by {
        if q == p {
            assert(t[s.len() as int] == q);
        } else {
            let k = choose|k: int| 0 <= k < s.len() && s[k] == q;
            assert(t[k] == q);
        }
    }
}

/// Appends to `res` the matches of `info` at `x`, in the order z then y.
fn push_column(info: &Formation, x: i32, res: &mut Vec<(i32, i32, i32)>)
    requires
        old(res)@.no_duplicates(),
        forall|p: (i32, i32, i32)| old(res)@.contains(p) ==> p.0 != x,
    ensures
        final(res)@.no_duplicates(),
        forall|p: (i32, i32, i32)|
            final(res)@.contains(p) <==> (old(res)@.contains(p) || found_in(info, x as int, x as int, p)),
{
    let mut z: i64 = info.z_min as i64;
    while z <= info.z_max as i64
        invariant
            info.z_min <= z,
            z <= info.z_max + 1 || z == info.z_min,
            res@.no_duplicates(),
            forall|p: (i32, i32, i32)| old(res)@.contains(p) ==> p.0 != x,
            forall|p: (i32, i32, i32)|
                res@.contains(p) <==> (old(res)@.contains(p) || (found_in(info, x as int, x as int, p) && p.2 < z)),
        decreases info.z_max - z + 1,
    {
        let mut y: i64 = info.y_min as i64;
        while y <= info.y_max as i64
            invariant
                info.z_min <= z <= info.z_max,
                info.y_min <= y,
                y <= info.y_max + 1 || y == info.y_min,
                res@.no_duplicates(),
                forall|p: (i32, i32, i32)| old(res)@.contains(p) ==> p.0 != x,
                forall|p: (i32, i32, i32)|
                    res@.contains(p) <==> (old(res)@.contains(p) || (found_in(info, x as int, x as int, p) && (p.2 < z || (p.2 == z && p.1 < y)))),
            decreases info.y_max - y + 1,
        {
            let p = (x, y as i32, z as i32);
            if matches_at(info, x, y as i32, z as i32) {
                proof {
                    assert(p.1 == y && p.2 == z);
                    assert(!old(res)@.contains(p));
                    lemma_push_unique(res@, p);
                }
                res.push(p);
            }
            y = y + 1;
        }
        z = z + 1;
    }
}

/// The matches of `info` whose x is `x`, each once: the work of one column
/// of the box, independent of every other column.
pub fn find_at_x(info: &Formation, x: i32) -> (r: Vec<(i32, i32, i32)>)
    ensures
        reports_columns(info, x as int, x as int, r@),
{
    let mut res: Vec<(i32, i32, i32)> = Vec::new();
    push_column(info, x, &mut res);
    res
}

/// The matches of `info` in its whole box, each once, scanning x, then z,
/// then y.
pub fn find(info: &Formation) -> (r: Vec<(i32, i32, i32)>)
    ensures
        reports_columns(info, info.x_min as int, info.x_max as int, r@),
        forall|p: (i32, i32, i32)|
            r@.contains(p) <==> (in_box(info, p) && is_match(info.sodium, info.rotation_info@, p.0, p.1, p.2)),
{
    let mut res: Vec<(i32, i32, i32)> = Vec::new();
    let mut x: i64 = info.x_min as i64;
    while x <= info.x_max as i64
        invariant
            info.x_min <= x,
            x <= info.x_max + 1 || x == info.x_min,
            reports_columns(info, info.x_min as int, x - 1, res@),
        decreases info.x_max - x + 1,
    {
        push_column(info, x as i32, &mut res);
        x = x + 1;
    }
    res
}

/// Partition independence: scanning `lo..=mid` and `mid + 1..=hi` apart and
/// joining the two reports gives a report of `lo..=hi`, with the same matches
/// as one scan of the whole range. By induction this holds for any split of
/// the x-range among workers.
pub proof fn lemma_partition_independent(
    f: &Formation,
    lo: int,
    mid: int,
    hi: int,
    left: Seq<(i32, i32, i32)>,
    right: Seq<(i32, i32, i32)>,
    whole: Seq<(i32, i32, i32)>,
)
    requires
        lo <= mid + 1,
        mid <= hi,
        reports_columns(f, lo, mid, left),
        reports_columns(f, mid + 1, hi, right),
        reports_columns(f, lo, hi, whole),
    ensures
        reports_columns(f, lo, hi, left + right),
        (left + right).to_set() == whole.to_set(),
{
    let joined = left + right;
    assert forall|p: (i32, i32, i32)| joined.contains(p) <==> found_in(f, lo, hi, p) by {
        if joined.contains(p) {
            let k = choose|k: int| 0 <= k < joined.len() && joined[k] == p;
            if k < left.len() {
                assert(left.contains(left[k]));
            } else {
                assert(right.contains(right[k - left.len()]));
            }
        }
        if found_in(f, lo, hi, p) {
            if p.0 <= mid {
                assert(found_in(f, lo, mid, p));
                assert(left.contains(p));
                let k = choose|k: int| 0 <= k < left.len() && left[k] == p;
                assert(joined[k] == p);
            } else {
                assert(found_in(f, mid + 1, hi, p));
                assert(right.contains(p));
                let k = choose|k: int| 0 <= k < right.len() && right[k] == p;
                assert(joined[k + left.len()] == p);
            }
        }
    }
    assert forall|a: int, b: int| 0 <= a < joined.len() && 0 <= b < joined.len() && a != b implies joined[a]
        != joined[b] by {
        if a < left.len() && b >= left.len() {
            assert(left.contains(left[a]));
            assert(right.contains(right[b - left.len()]));
        } else if b < left.len() && a >= left.len() {
            assert(left.contains(left[b]));
            assert(right.contains(right[a - left.len()]));
        }
    }
    assert(joined.to_set() =~= whole.to_set());
}

/// With no constraints, a report of the whole box holds every position of the
/// box exactly once, and nothing else.
pub proof fn lemma_empty_pattern_reports_box(f: &Formation, r: Seq<(i32, i32, i32)>)
    requires
        f.rotation_info@.len() == 0,
        reports_columns(f, f.x_min as int, f.x_max as int, r),
    ensures
        r.no_duplicates(),
        forall|p: (i32, i32, i32)| r.contains(p) <==> in_box(f, p),
{
    assert forall|p: (i32, i32, i32)| r.contains(p) <==> in_box(f, p) by {
        assert(is_match(f.sodium, f.rotation_info@, p.0, p.1, p.2));
    }
}

/// Negative control: give constraint `i` of `cs` an expected orientation
/// `rotation` under which it fails at the match `p`. Then `p` is no longer a
/// match, and every position `q` at which constraint `i` fares alike under
/// both orientations keeps its standing.
pub proof fn lemma_negative_control(
    sodium: bool,
    cs: Seq<RotationInfo>,
    i: int,
    rotation: i32,
    p: (i32, i32, i32),
    q: (i32, i32, i32),
)
    requires
        0 <= i < cs.len(),
        is_match(sodium, cs, p.0, p.1, p.2),
        !constraint_holds(
            sodium,
            (RotationInfo { rotation, ..cs[i] }),
            p.0,
            p.1,
            p.2,
        ),
    ensures
        !is_match(sodium, cs.update(i, (RotationInfo { rotation, ..cs[i] })), p.0, p.1, p.2),
        constraint_holds(sodium, cs[i], q.0, q.1, q.2) == constraint_holds(
            sodium,
            (RotationInfo { rotation, ..cs[i] }),
            q.0,
            q.1,
            q.2,
        ) ==> is_match(sodium, cs, q.0, q.1, q.2) == is_match(
            sodium,
            cs.update(i, (RotationInfo { rotation, ..cs[i] })),
            q.0,
            q.1,
            q.2,
        ),
{
    let c = RotationInfo { rotation, ..cs[i] };
    let cs2 = cs.update(i, c);
    assert(cs2[i] == c);
    if constraint_holds(sodium, cs[i], q.0, q.1, q.2) == constraint_holds(sodium, c, q.0, q.1, q.2) {
        assert forall|j: int| 0 <= j < cs.len() implies constraint_holds(sodium, cs[j], q.0, q.1, q.2)
            == constraint_holds(sodium, cs2[j], q.0, q.1, q.2) by {
            if j != i {
                assert(cs2[j] == cs[j]);
            }
        }
        if is_match(sodium, cs, q.0, q.1, q.2) {
            assert forall|j: int| 0 <= j < cs2.len() implies #[trigger] constraint_holds(
                sodium,
                cs2[j],
                q.0,
                q.1,
                q.2,
            ) by {
                assert(constraint_holds(sodium, cs[j], q.0, q.1, q.2));
            }
        }
        if is_match(sodium, cs2, q.0, q.1, q.2) {
            assert forall|j: int| 0 <= j < cs.len() implies #[trigger] constraint_holds(
                sodium,
                cs[j],
                q.0,
                q.1,
                q.2,
            ) by {
                assert(constraint_holds(sodium, cs2[j], q.0, q.1, q.2));
            }
        }
    }
}

} // verus!
