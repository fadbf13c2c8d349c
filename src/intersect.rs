//! Choosing intersections. Ray parameters reach this module as order keys:
//! integers that order as the parameters they stand for (the program derives
//! them from the `f32` values as `f32::total_cmp` orders them), so that the
//! rules "first root inside the open interval" and "nearest hit over the
//! scene" are decided and proved here on integers.

use vstd::prelude::*;

verus! {

/// The keys of the two roots of a ray–sphere quadratic, smaller one first.
#[derive(Clone, Copy, Debug, PartialEq, Eq, Structural)]
pub struct RootPair {
    pub near: i32,
    pub far: i32,
}

/// Which of the two roots was taken.
#[derive(Clone, Copy, Debug, PartialEq, Eq, Structural)]
pub enum Root {
    Near,
    Far,
}

impl RootPair {
    /// The roots are in ascending order.
    pub open spec fn wf(self) -> bool {
        self.near <= self.far
    }

    /// The key of one of the two roots.
    pub open spec fn key(self, root: Root) -> i32 {
        match root {
            Root::Near => self.near,
            Root::Far => self.far,
        }
    }

    /// The pair of two roots, put in ascending order.
    pub fn new(a: i32, b: i32) -> (p: RootPair)
        ensures
            p.wf(),
            a <= b ==> p == (RootPair { near: a, far: b }),
            b < a ==> p == (RootPair { near: b, far: a }),
    {
        if a <= b {
            RootPair { near: a, far: b }
        } else {
            RootPair { near: b, far: a }
        }
    }
}

/// Whether `t` lies strictly between `lo` and `hi`.
pub open spec fn inside(t: int, lo: int, hi: int) -> bool {
    lo < t && t < hi
}

/// The root a sphere reports: the near one when it lies strictly inside
/// `(lo, hi)`, else the far one when it does, else none.
pub open spec fn first_root_spec(p: RootPair, lo: int, hi: int) -> Option<Root> {
    if inside(p.near as int, lo, hi) {
        Some(Root::Near)
    } else if inside(p.far as int, lo, hi) {
        Some(Root::Far)
    } else {
        None
    }
}

/// The key of the hit a candidate gives in `(lo, hi)`: a candidate is `None`
/// for a sphere whose quadratic has no positive discriminant.
pub open spec fn hit_key(c: Option<RootPair>, lo: int, hi: int) -> Option<i32> {
    match c {
        Some(p) => match first_root_spec(p, lo, hi) {
            Some(r) => Some(p.key(r)),
            None => None,
        },
        None => None,
    }
}

/// Tests the roots in ascending order and takes the first strictly inside
/// `(lo, hi)`.
pub fn first_root_in(p: RootPair, lo: i32, hi: i32) -> (r: Option<Root>)
    ensures
        r == first_root_spec(p, lo as int, hi as int),
{
    if lo < p.near && p.near < hi {
        Some(Root::Near)
    } else if lo < p.far && p.far < hi {
        Some(Root::Far)
    } else {
        None
    }
}

/// The hit that the scene reports: which surface, which of its roots, and
/// that root's key.
#[derive(Clone, Copy, Debug, PartialEq, Eq, Structural)]
pub struct Nearest {
    pub index: usize,
    pub root: Root,
    pub key: i32,
}

/// All candidates are well formed.
pub open spec fn all_wf(cands: Seq<Option<RootPair>>) -> bool {
    forall|i: int| 0 <= i < cands.len() ==> (#[trigger] cands[i] matches Some(p) ==> p.wf())
}

/// `n` is the nearest hit among the first `len` candidates in `(lo, hi)`: its
/// key is the least of all their hit keys, and no earlier candidate has a hit
/// with the same key.
pub open spec fn is_nearest(cands: Seq<Option<RootPair>>, len: int, lo: int, hi: int, n: Nearest) -> bool {
    &&& n.index < len
    &&& cands[n.index as int] matches Some(p) && first_root_spec(p, lo, hi) == Some(n.root)
    &&& hit_key(cands[n.index as int], lo, hi) == Some(n.key)
    &&& forall|j: int|
        0 <= j < len ==> (#[trigger] hit_key(cands[j], lo, hi) matches Some(k) ==> n.key <= k
            && (j < n.index ==> n.key < k))
}

/// Narrowing the upper end of the interval to `bound` keeps a sphere's hit
/// exactly when that hit lies below `bound`.
proof fn lemma_narrowed(p: RootPair, lo: int, hi: int, bound: int)
    requires
        p.wf(),
        bound <= hi,
    ensures
        match first_root_spec(p, lo, bound) {
            Some(r) => first_root_spec(p, lo, hi) == Some(r) && p.key(r) < bound,
            None => hit_key(Some(p), lo, hi) matches Some(k) ==> k >= bound,
        },
{
}

/// Scans the candidates in order, each tested against the interval `(lo,
/// closest)` where `closest` starts at `hi` and drops to each hit found. The
/// result is the nearest hit of the whole scene in `(lo, hi)`, the earliest
/// surface on a tie, and `None` exactly when no surface has a hit there.
pub fn nearest_hit(cands: &Vec<Option<RootPair>>, lo: i32, hi: i32) -> (r: Option<Nearest>)
    requires
        all_wf(cands@),
    ensures
        r is None <==> forall|j: int| 0 <= j < cands@.len() ==> (#[trigger] hit_key(cands@[j], lo as int, hi as int)) is None,
        r matches Some(n) ==> is_nearest(cands@, cands@.len() as int, lo as int, hi as int, n),
{
    let mut best: Option<Nearest> = None;
    let mut closest: i32 = hi;
    let mut i: usize = 0;
    while i < cands.len()
        invariant
            i <= cands@.len(),
            all_wf(cands@),
            closest <= hi,
            best is None ==> closest == hi,
            best is None <==> forall|j: int| 0 <= j < i ==> (#[trigger] hit_key(cands@[j], lo as int, hi as int)) is None,
            best matches Some(n) ==> n.key == closest && is_nearest(cands@, i as int, lo as int, hi as int, n),
        decreases cands@.len() - i,
    {
        if let Some(p) = cands[i] {
            proof {
                lemma_narrowed(p, lo as int, hi as int, closest as int);
            }
            if let Some(root) = first_root_in(p, lo, closest) {
                let key = match root {
                    Root::Near => p.near,
                    Root::Far => p.far,
                };
                best = Some(Nearest { index: i, root, key });
                closest = key;
            }
        }
        i = i + 1;
    }
    best
}

} // verus!
