//! The descriptor join: a deterministic creation-order, best-effort zip of
//! fetched stream references against manifest descriptors.
//!
//! The fetch reply carries no key back into the manifest: the reply record
//! holds only the stream reference and the geometry. Both sides are instead
//! enumerable in resource-creation order (stream references ascending,
//! descriptors by `store0_offset` ascending) and correspond rank for rank.
//! So the join zips positionally; width, height and format are a hard check
//! on each pairing, never a soft matcher. A descriptor the walk cannot place
//! lands in [`Descriptions::unplaced`] rather than erroring.
//!
//! Known limitation: the walk catches a count imbalance, not a
//! same-geometry one-position shift. If an undescribed fetched texture shares
//! its exact `(width, height, format)` with described textures and sorts
//! earlier by stream reference, attribution can shift by one.

use crate::hl::format::{format_kind, spec_format_kind};
use crate::hl::image::Texture;
use vstd::prelude::*;

verus! {

broadcast use vstd::std_specs::vec::group_vec_axioms;

/// A texture descriptor from the capture's manifest, ordered by its
/// `store0_offset`.
#[derive(Debug, Clone, Copy, PartialEq, Eq)]
pub struct TextureDescriptor {
    /// Offset of the descriptor in the manifest's store (its creation rank).
    pub store0_offset: u64,
    /// The raw `MTLPixelFormat` code.
    pub format: u32,
    /// The raw `MTLTextureType` code.
    pub texture_type: u32,
    /// Width in pixels.
    pub width: u32,
    /// Height in pixels.
    pub height: u32,
    /// Depth in pixels.
    pub depth: u32,
    /// Mip level count.
    pub mip_levels: u32,
    /// Array length.
    pub array_length: u32,
    /// Sample count.
    pub sample_count: u32,
    /// The raw `MTLTextureUsage` bits.
    pub usage: u64,
    /// The texture's id.
    pub texture_id: u64,
}

/// A descriptor of a combined depth+stencil format: the fetch serves such a
/// resource only as separate aspects, so it is never matched.
pub open spec fn is_combined(d: TextureDescriptor) -> bool {
    spec_format_kind(d.format).is_combined()
}

/// Whether descriptor `d` has exactly the geometry and format `key`.
pub open spec fn matches_key(d: TextureDescriptor, key: (u32, u32, u32)) -> bool {
    d.width == key.0 && d.height == key.1 && d.format == key.2
}

/// The first position from `j` on that is not a combined descriptor.
pub open spec fn skip_combined(descs: Seq<TextureDescriptor>, j: int) -> int
    decreases descs.len() - j,
{
    if 0 <= j < descs.len() && is_combined(descs[j]) {
        skip_combined(descs, j + 1)
    } else {
        j
    }
}

/// The walk over the first `i` keys: for each key, the descriptor it pairs
/// with (the next non-combined descriptor, when its geometry and format
/// match the key) or `None`; and the position the walk reached.
pub open spec fn zip_walk(keys: Seq<(u32, u32, u32)>, descs: Seq<TextureDescriptor>, i: int) -> (
    Seq<Option<usize>>,
    int,
)
    decreases i,
{
    if i <= 0 {
        (Seq::empty(), 0)
    } else {
        let (prev, j0) = zip_walk(keys, descs, i - 1);
        let j = skip_combined(descs, j0);
        if j < descs.len() && matches_key(descs[j], keys[i - 1]) {
            (prev.push(Some(j as usize)), j + 1)
        } else {
            (prev.push(None), j)
        }
    }
}

/// Whether some key was paired with descriptor `k`.
pub open spec fn placed_in(matched: Seq<Option<usize>>, k: int) -> bool {
    exists|i: int| 0 <= i < matched.len() && (#[trigger] matched[i] matches Some(x) && x == k)
}

/// The positions below `n` that satisfy `p`, ascending.
pub open spec fn positions(n: int, p: spec_fn(int) -> bool) -> Seq<usize>
    decreases n,
{
    if n <= 0 {
        Seq::empty()
    } else if p(n - 1) {
        positions(n - 1, p).push((n - 1) as usize)
    } else {
        positions(n - 1, p)
    }
}

/// How many entries of `s` are `Some`.
pub open spec fn count_some<T>(s: Seq<Option<T>>) -> nat
    decreases s.len(),
{
    if s.len() == 0 {
        0
    } else {
        count_some(s.drop_last()) + if s.last() is Some {
            1nat
        } else {
            0nat
        }
    }
}

/// What the zip returns: the pairing per key, the non-combined descriptors
/// left unplaced, and the combined ones, the latter two by position.
pub open spec fn spec_zip(keys: Seq<(u32, u32, u32)>, descs: Seq<TextureDescriptor>) -> (
    Seq<Option<usize>>,
    Seq<usize>,
    Seq<usize>,
) {
    let matched = zip_walk(keys, descs, keys.len() as int).0;
    (
        matched,
        positions(
            descs.len() as int,
            |k: int| !is_combined(descs[k]) && !placed_in(matched, k),
        ),
        positions(descs.len() as int, |k: int| is_combined(descs[k])),
    )
}

proof fn lemma_skip_combined(descs: Seq<TextureDescriptor>, j: int)
    requires
        0 <= j,
    ensures
        j <= skip_combined(descs, j),
        j <= descs.len() ==> skip_combined(descs, j) <= descs.len(),
        skip_combined(descs, j) < descs.len() ==> !is_combined(descs[skip_combined(descs, j)]),
    decreases descs.len() - j,
{
    if 0 <= j < descs.len() && is_combined(descs[j]) {
        lemma_skip_combined(descs, j + 1);
    }
}

/// The walk pairs keys with non-combined descriptors at strictly increasing
/// positions, all below the position it reached.
proof fn lemma_zip_walk(keys: Seq<(u32, u32, u32)>, descs: Seq<TextureDescriptor>, i: int)
    requires
        0 <= i <= keys.len(),
        descs.len() <= usize::MAX,
    ensures
        zip_walk(keys, descs, i).0.len() == i,
        0 <= zip_walk(keys, descs, i).1 <= descs.len(),
        forall|a: int|
            0 <= a < i ==> (#[trigger] zip_walk(keys, descs, i).0[a] matches Some(k) ==> k
                < zip_walk(keys, descs, i).1 && !is_combined(descs[k as int]) && matches_key(
                descs[k as int],
                keys[a],
            )),
        forall|a: int, b: int|
            #![trigger zip_walk(keys, descs, i).0[a], zip_walk(keys, descs, i).0[b]]
            0 <= a < b < i ==> (zip_walk(keys, descs, i).0[a] is Some && zip_walk(keys, descs, i).0[b] is Some
                ==> zip_walk(keys, descs, i).0[a]->0 < zip_walk(keys, descs, i).0[b]->0),
    decreases i,
{
    if i > 0 {
        lemma_zip_walk(keys, descs, i - 1);
        let (prev, j0) = zip_walk(keys, descs, i - 1);
        lemma_skip_combined(descs, j0);
        let (out, j1) = zip_walk(keys, descs, i);
        assert forall|a: int| 0 <= a < i - 1 implies out[a] == prev[a] by {}
        assert forall|a: int|
            0 <= a < i implies (#[trigger] out[a] matches Some(k) ==> k < j1 && !is_combined(
                descs[k as int],
            ) && matches_key(descs[k as int], keys[a])) by {
            if a < i - 1 {
                assert(out[a] == prev[a]);
            } else {
                let j = skip_combined(descs, j0);
                if j < descs.len() && matches_key(descs[j], keys[i - 1]) {
                    assert(out[a] == Some(j as usize));
                    assert(!is_combined(descs[j]));
                    assert((j as usize) as int == j);
                }
            }
        }
        assert forall|a: int, b: int|
            #![trigger out[a], out[b]]
            0 <= a < b < i && out[a] is Some && out[b] is Some implies out[a]->0 < out[b]->0 by {
            assert(out[a] == prev[a]);
            assert(zip_walk(keys, descs, i - 1).0[a] == out[a]);
            if b < i - 1 {
                assert(out[b] == prev[b]);
                assert(zip_walk(keys, descs, i - 1).0[b] == out[b]);
            } else {
                let j = skip_combined(descs, j0);
                assert(zip_walk(keys, descs, i - 1).0[a] == prev[a]);
                if j < descs.len() && matches_key(descs[j], keys[i - 1]) {
                    assert(out[b] == Some(j as usize));
                    assert((j as usize) as int == j);
                    assert(j0 <= j);
                    if out[a] is Some {
                        assert(out[a]->0 < j0);
                        assert(out[b]->0 == j);
                        assert(out[a]->0 < out[b]->0);
                    }
                } else {
                    assert(out[b] is None);
                }
            }
        }
    }
}

/// Adding one position `j` to a predicate adds one to its positions below
/// `n`.
proof fn lemma_positions_insert(n: int, p: spec_fn(int) -> bool, q: spec_fn(int) -> bool, j: int)
    requires
        0 <= j < n,
        !p(j),
        forall|k: int| #[trigger] q(k) == (p(k) || k == j),
    ensures
        positions(n, q).len() == positions(n, p).len() + 1,
    decreases n,
{
    if n - 1 != j {
        lemma_positions_insert(n - 1, p, q, j);
    } else {
        lemma_positions_same(n - 1, p, q);
    }
}

/// Predicates that agree below `n` have the same positions below `n`.
proof fn lemma_positions_same(n: int, p: spec_fn(int) -> bool, q: spec_fn(int) -> bool)
    requires
        forall|k: int| 0 <= k < n ==> #[trigger] p(k) == q(k),
    ensures
        positions(n, p) == positions(n, q),
    decreases n,
{
    if n > 0 {
        lemma_positions_same(n - 1, p, q);
    }
}

/// Three predicates of which exactly one holds at each position below `n`
/// together have `n` positions.
proof fn lemma_positions_partition(
    n: int,
    p: spec_fn(int) -> bool,
    q: spec_fn(int) -> bool,
    r: spec_fn(int) -> bool,
)
    requires
        0 <= n,
        forall|k: int|
            0 <= k < n ==> (#[trigger] p(k) as int) + (q(k) as int) + (r(k) as int) == 1,
    ensures
        positions(n, p).len() + positions(n, q).len() + positions(n, r).len() == n,
    decreases n,
{
    if n > 0 {
        lemma_positions_partition(n - 1, p, q, r);
        assert((p(n - 1) as int) + (q(n - 1) as int) + (r(n - 1) as int) == 1);
    }
}

/// The positions listed below `n` are below `n`.
proof fn lemma_positions_below(n: int, p: spec_fn(int) -> bool)
    requires
        n <= usize::MAX + 1,
    ensures
        forall|a: int| 0 <= a < positions(n, p).len() ==> (#[trigger] positions(n, p)[a]) < n,
    decreases n,
{
    if n > 0 {
        lemma_positions_below(n - 1, p);
        if p(n - 1) {
            assert forall|a: int| 0 <= a < positions(n, p).len() implies (#[trigger] positions(
                n,
                p,
            )[a]) < n by {
                if a < positions(n - 1, p).len() {
                    assert(positions(n, p)[a] == positions(n - 1, p)[a]);
                }
            }
        }
    }
}

/// A predicate that holds nowhere below `n` has no positions there.
proof fn lemma_positions_none(n: int, p: spec_fn(int) -> bool)
    requires
        forall|k: int| 0 <= k < n ==> !#[trigger] p(k),
    ensures
        positions(n, p).len() == 0,
    decreases n,
{
    if n > 0 {
        lemma_positions_none(n - 1, p);
    }
}

/// The number of keys the walk pairs is the number of descriptors it
/// places.
proof fn lemma_zip_count(keys: Seq<(u32, u32, u32)>, descs: Seq<TextureDescriptor>, i: int)
    requires
        0 <= i <= keys.len(),
        descs.len() <= usize::MAX,
    ensures
        count_some(zip_walk(keys, descs, i).0) == positions(
            descs.len() as int,
            |k: int| placed_in(zip_walk(keys, descs, i).0, k),
        ).len(),
    decreases i,
{
    let n = descs.len() as int;
    lemma_zip_walk(keys, descs, i);
    if i == 0 {
        lemma_positions_none(n, |k: int| placed_in(zip_walk(keys, descs, i).0, k));
    } else {
        lemma_zip_count(keys, descs, i - 1);
        lemma_zip_walk(keys, descs, i - 1);
        let (prev, j0) = zip_walk(keys, descs, i - 1);
        let out = zip_walk(keys, descs, i).0;
        assert(out.drop_last() == prev);
        let p = |k: int| placed_in(prev, k);
        let q = |k: int| placed_in(out, k);
        match out.last() {
            Some(j) => {
                assert forall|k: int| #[trigger] q(k) == (p(k) || k == j) by {
                    if q(k) {
                        let a = choose|a: int| 0 <= a < out.len() && (#[trigger] out[a] matches Some(x) && x == k);
                        if a < i - 1 {
                            assert(prev[a] == out[a]);
                        }
                    }
                    if p(k) {
                        let a = choose|a: int| 0 <= a < prev.len() && (#[trigger] prev[a] matches Some(x) && x == k);
                        assert(out[a] == prev[a]);
                    }
                    if k == j {
                        assert(out[i - 1] == Some(j));
                    }
                }
                if p(j as int) {
                    let a = choose|a: int| 0 <= a < prev.len() && (#[trigger] prev[a] matches Some(x) && x == j);
                    assert(out[a] == prev[a]);
                    assert(out[i - 1] == Some(j));
                }
                lemma_positions_insert(n, p, q, j as int);
            },
            None => {
                assert forall|k: int| 0 <= k < n implies #[trigger] p(k) == q(k) by {
                    if q(k) {
                        let a = choose|a: int| 0 <= a < out.len() && (#[trigger] out[a] matches Some(x) && x == k);
                        if a < i - 1 {
                            assert(prev[a] == out[a]);
                        }
                    }
                    if p(k) {
                        let a = choose|a: int| 0 <= a < prev.len() && (#[trigger] prev[a] matches Some(x) && x == k);
                        assert(out[a] == prev[a]);
                    }
                }
                lemma_positions_same(n, p, q);
            },
        }
    }
}

/// The zip partitions the descriptors: every descriptor is placed by
/// exactly one key, left unplaced, or skipped as combined, so the number of
/// paired keys, of unplaced descriptors and of combined ones add up to the
/// number of descriptors.
pub proof fn lemma_zip_partitions(keys: Seq<(u32, u32, u32)>, descs: Seq<TextureDescriptor>)
    requires
        descs.len() <= usize::MAX,
    ensures
        count_some(spec_zip(keys, descs).0) + spec_zip(keys, descs).1.len() + spec_zip(
            keys,
            descs,
        ).2.len() == descs.len(),
{
    let n = descs.len() as int;
    let i = keys.len() as int;
    let matched = zip_walk(keys, descs, i).0;
    lemma_zip_walk(keys, descs, i);
    lemma_zip_count(keys, descs, i);
    let p = |k: int| placed_in(matched, k);
    let q = |k: int| !is_combined(descs[k]) && !placed_in(matched, k);
    let r = |k: int| is_combined(descs[k]);
    assert forall|k: int| 0 <= k < n implies (#[trigger] p(k) as int) + (q(k) as int) + (r(k) as int)
        == 1 by {
        if p(k) {
            let a = choose|a: int| 0 <= a < matched.len() && (#[trigger] matched[a] matches Some(x) && x == k);
            assert(matched[a] matches Some(x) && !is_combined(descs[x as int]));
        }
    }
    lemma_positions_partition(n, p, q, r);
}

/// Every pairing is exact and in creation order: a key is paired only with
/// a non-combined descriptor of exactly its width, height and format, and
/// later keys pair with later descriptors.
pub proof fn lemma_zip_pairings(keys: Seq<(u32, u32, u32)>, descs: Seq<TextureDescriptor>)
    requires
        descs.len() <= usize::MAX,
    ensures
        forall|a: int|
            0 <= a < keys.len() ==> (#[trigger] spec_zip(keys, descs).0[a] matches Some(j) ==> j
                < descs.len() && !is_combined(descs[j as int]) && matches_key(descs[j as int], keys[a])
                && descs[j as int].width == keys[a].0 && descs[j as int].height == keys[a].1
                && descs[j as int].format == keys[a].2),
        forall|a: int, b: int|
            #![trigger spec_zip(keys, descs).0[a], spec_zip(keys, descs).0[b]]
            0 <= a < b < keys.len() && spec_zip(keys, descs).0[a] is Some && spec_zip(keys, descs).0[b] is Some
                ==> spec_zip(keys, descs).0[a]->0 < spec_zip(keys, descs).0[b]->0,
{
    lemma_zip_walk(keys, descs, keys.len() as int);
}

/// A position is listed exactly when it is below `n` and satisfies `p`.
proof fn lemma_positions_member(n: int, p: spec_fn(int) -> bool, k: int)
    requires
        n <= usize::MAX + 1,
    ensures
        positions(n, p).contains(k as usize) && 0 <= k <= usize::MAX <==> (0 <= k < n && p(k)),
    decreases n,
{
    if n > 0 {
        lemma_positions_member(n - 1, p, k);
        lemma_positions_below(n - 1, p);
        if p(n - 1) {
            let s = positions(n - 1, p);
            if k == n - 1 {
                assert(positions(n, p)[s.len() as int] == (n - 1) as usize);
            }
            if 0 <= k <= usize::MAX && positions(n, p).contains(k as usize) {
                let a = choose|a: int| 0 <= a < positions(n, p).len() && positions(n, p)[a] == k as usize;
                if a < s.len() {
                    assert(s[a] == k as usize);
                }
            }
            if 0 <= k < n - 1 && p(k) {
                let a = choose|a: int| 0 <= a < s.len() && s[a] == k as usize;
                assert(positions(n, p)[a] == k as usize);
            }
        }
    }
}

/// Each key gets one answer, and the two leftover lists are exactly what
/// they say: the combined depth+stencil descriptors, each of them; and the
/// other descriptors that no key was paired with, each of them.
pub proof fn lemma_zip_leftovers(keys: Seq<(u32, u32, u32)>, descs: Seq<TextureDescriptor>)
    requires
        descs.len() <= usize::MAX,
    ensures
        spec_zip(keys, descs).0.len() == keys.len(),
        forall|k: int|
            0 <= k < descs.len() ==> (spec_zip(keys, descs).2.contains(k as usize) <==> #[trigger] is_combined(
                descs[k],
            )),
        forall|k: int|
            0 <= k < descs.len() ==> (#[trigger] spec_zip(keys, descs).1.contains(k as usize) <==> (
            !is_combined(descs[k]) && forall|a: int|
                0 <= a < keys.len() ==> spec_zip(keys, descs).0[a] != Some(k as usize))),
        forall|x: usize| #[trigger] spec_zip(keys, descs).1.contains(x) ==> x < descs.len(),
        forall|x: usize| #[trigger] spec_zip(keys, descs).2.contains(x) ==> x < descs.len(),
{
    let n = descs.len() as int;
    lemma_zip_walk(keys, descs, keys.len() as int);
    let matched = zip_walk(keys, descs, keys.len() as int).0;
    let pu = |k: int| !is_combined(descs[k]) && !placed_in(matched, k);
    let pc = |k: int| is_combined(descs[k]);
    assert forall|k: int| 0 <= k < descs.len() implies (spec_zip(keys, descs).2.contains(k as usize)
        <==> #[trigger] is_combined(descs[k])) by {
        lemma_positions_member(n, pc, k);
    }
    assert forall|k: int| 0 <= k < descs.len() implies (#[trigger] spec_zip(keys, descs).1.contains(
        k as usize,
    ) <==> (!is_combined(descs[k]) && forall|a: int|
        0 <= a < keys.len() ==> spec_zip(keys, descs).0[a] != Some(k as usize))) by {
        lemma_positions_member(n, pu, k);
        if placed_in(matched, k) {
            let a = choose|a: int| 0 <= a < matched.len() && (#[trigger] matched[a] matches Some(x) && x == k);
            assert(spec_zip(keys, descs).0[a] == Some(k as usize));
        } else {
            assert forall|a: int| 0 <= a < keys.len() implies spec_zip(keys, descs).0[a] != Some(k as usize) by {
                if matched[a] == Some(k as usize) {
                    assert(matched[a] matches Some(x) && x == k);
                }
            }
        }
    }
    assert forall|x: usize| #[trigger] spec_zip(keys, descs).1.contains(x) implies x < descs.len() by {
        lemma_positions_member(n, pu, x as int);
    }
    assert forall|x: usize| #[trigger] spec_zip(keys, descs).2.contains(x) implies x < descs.len() by {
        lemma_positions_member(n, pc, x as int);
    }
}

proof fn lemma_zip_walk_rank(keys: Seq<(u32, u32, u32)>, descs: Seq<TextureDescriptor>, i: int)
    requires
        0 <= i <= keys.len(),
        keys.len() <= descs.len() <= usize::MAX,
        forall|a: int| 0 <= a < keys.len() ==> !is_combined(#[trigger] descs[a]),
        forall|a: int|
            0 <= a < keys.len() ==> (#[trigger] descs[a]).width == keys[a].0 && descs[a].height
                == keys[a].1 && descs[a].format == keys[a].2,
    ensures
        zip_walk(keys, descs, i).1 == i,
        zip_walk(keys, descs, i).0.len() == i,
        forall|a: int| 0 <= a < i ==> #[trigger] zip_walk(keys, descs, i).0[a] == Some(a as usize),
    decreases i,
{
    if i > 0 {
        lemma_zip_walk_rank(keys, descs, i - 1);
        assert(skip_combined(descs, i - 1) == i - 1);
        let prev = zip_walk(keys, descs, i - 1).0;
        assert forall|a: int| 0 <= a < i implies #[trigger] zip_walk(keys, descs, i).0[a] == Some(a as usize) by {
            if a < i - 1 {
                assert(zip_walk(keys, descs, i).0[a] == prev[a]);
            }
        }
    }
}

/// When the fetched textures and the (non-combined) descriptors correspond
/// rank for rank, with the same width, height and format at each rank, the
/// zip pairs every key with the descriptor of its rank.
pub proof fn lemma_zip_rank_for_rank(keys: Seq<(u32, u32, u32)>, descs: Seq<TextureDescriptor>)
    requires
        keys.len() <= descs.len() <= usize::MAX,
        forall|a: int| 0 <= a < keys.len() ==> !is_combined(#[trigger] descs[a]),
        forall|a: int|
            0 <= a < keys.len() ==> (#[trigger] descs[a]).width == keys[a].0 && descs[a].height
                == keys[a].1 && descs[a].format == keys[a].2,
    ensures
        forall|a: int| 0 <= a < keys.len() ==> #[trigger] spec_zip(keys, descs).0[a] == Some(a as usize),
{
    lemma_zip_walk_rank(keys, descs, keys.len() as int);
}

fn descriptor_is_combined(d: &TextureDescriptor) -> (r: bool)
    ensures
        r == is_combined(*d),
{
    format_kind(d.format).is_combined_depth_stencil()
}

/// Zip `keys` (the `(width, height, format)` of each fetched texture, by
/// stream reference ascending, deduplicated) against `descs` (by
/// `store0_offset` ascending). Returns, per key, the position in `descs` it
/// pairs with (`None` for an extra key); the positions of every
/// non-combined descriptor the walk never placed; and the positions of
/// every combined depth+stencil descriptor, which are always skipped. These
/// three partition all of `descs` (see [`lemma_zip_partitions`]).
pub fn zip_best_effort(keys: &[(u32, u32, u32)], descs: &[TextureDescriptor]) -> (r: (
    Vec<Option<usize>>,
    Vec<usize>,
    Vec<usize>,
))
    ensures
        (r.0@, r.1@, r.2@) == spec_zip(keys@, descs@),
{
    let n = descs.len();
    let mut out: Vec<Option<usize>> = Vec::new();
    let mut placed: Vec<bool> = Vec::new();
    let mut k: usize = 0;
    while k < n
        invariant
            n == descs@.len(),
            k <= n,
            placed@.len() == k,
            forall|x: int| 0 <= x < k ==> !(#[trigger] placed@[x]),
        decreases n - k,
    {
        placed.push(false);
        k = k + 1;
    }
    let mut j: usize = 0;
    let mut i: usize = 0;
    while i < keys.len()
        invariant
            n == descs@.len(),
            i <= keys@.len(),
            placed@.len() == n,
            (out@, j as int) == zip_walk(keys@, descs@, i as int),
            forall|x: int| 0 <= x < n ==> (#[trigger] placed@[x] <==> placed_in(out@, x)),
        decreases keys@.len() - i,
    {
        proof {
            lemma_zip_walk(keys@, descs@, i as int);
            lemma_skip_combined(descs@, j as int);
        }
        let ghost j0 = j as int;
        while j < n && descriptor_is_combined(&descs[j])
            invariant
                n == descs@.len(),
                j0 <= j <= n,
                skip_combined(descs@, j0) == skip_combined(descs@, j as int),
            decreases n - j,
        {
            j = j + 1;
        }
        let (w, h, f) = keys[i];
        let ghost prev = out@;
        if j < n && descs[j].width == w && descs[j].height == h && descs[j].format == f {
            out.push(Some(j));
            placed.set(j, true);
            proof {
                assert forall|x: int| 0 <= x < n implies (#[trigger] placed@[x] <==> placed_in(
                    out@,
                    x,
                )) by {
                    if placed_in(prev, x) {
                        let a = choose|a: int| 0 <= a < prev.len() && (#[trigger] prev[a] matches Some(y) && y == x);
                        assert(out@[a] == prev[a]);
                    }
                    if placed_in(out@, x) && x != j {
                        let a = choose|a: int| 0 <= a < out@.len() && (#[trigger] out@[a] matches Some(y) && y == x);
                        assert(a < prev.len());
                        assert(prev[a] == out@[a]);
                    }
                    if x == j {
                        assert(out@[prev.len() as int] == Some(j));
                    }
                }
            }
            j = j + 1;
        } else {
            out.push(None);
            proof {
                assert forall|x: int| 0 <= x < n implies (#[trigger] placed@[x] <==> placed_in(
                    out@,
                    x,
                )) by {
                    if placed_in(prev, x) {
                        let a = choose|a: int| 0 <= a < prev.len() && (#[trigger] prev[a] matches Some(y) && y == x);
                        assert(out@[a] == prev[a]);
                    }
                    if placed_in(out@, x) {
                        let a = choose|a: int| 0 <= a < out@.len() && (#[trigger] out@[a] matches Some(y) && y == x);
                        assert(a < prev.len());
                        assert(prev[a] == out@[a]);
                    }
                }
            }
        }
        i = i + 1;
    }
    let ghost matched = out@;
    let ghost up = |x: int| !is_combined(descs@[x]) && !placed_in(matched, x);
    let ghost tp = |x: int| is_combined(descs@[x]);
    let mut unplaced: Vec<usize> = Vec::new();
    let mut transparent: Vec<usize> = Vec::new();
    let mut k: usize = 0;
    while k < n
        invariant
            n == descs@.len(),
            k <= n,
            placed@.len() == n,
            matched == out@,
            forall|x: int| 0 <= x < n ==> (#[trigger] placed@[x] <==> placed_in(matched, x)),
            up == (|x: int| !is_combined(descs@[x]) && !placed_in(matched, x)),
            tp == (|x: int| is_combined(descs@[x])),
            unplaced@ == positions(k as int, up),
            transparent@ == positions(k as int, tp),
        decreases n - k,
    {
        let c = descriptor_is_combined(&descs[k]);
        if !c && !placed[k] {
            unplaced.push(k);
        }
        if c {
            transparent.push(k);
        }
        k = k + 1;
    }
    (out, unplaced, transparent)
}

/// A fetched texture paired with its manifest descriptor.
pub struct DescribedTexture {
    /// The fetched texture (its pixel bytes are always authoritative).
    pub texture: Texture,
    /// The joined descriptor, or `None` when this fetched texture has no
    /// manifest descriptor.
    pub descriptor: Option<TextureDescriptor>,
}

impl DescribedTexture {
    /// The texture's mip level count, if the manifest describes it.
    pub fn mip_count(&self) -> (r: Option<u32>)
        ensures
            r == (match self.descriptor {
                Some(d) => Some(d.mip_levels),
                None => None::<u32>,
            }),
    {
        match self.descriptor {
            Some(d) => Some(d.mip_levels),
            None => None,
        }
    }

    /// The texture's array length, if the manifest describes it.
    pub fn array_len(&self) -> (r: Option<u32>)
        ensures
            r == (match self.descriptor {
                Some(d) => Some(d.array_length),
                None => None::<u32>,
            }),
    {
        match self.descriptor {
            Some(d) => Some(d.array_length),
            None => None,
        }
    }

    /// The texture's raw `MTLTextureType` code, if the manifest describes it.
    pub fn texture_type(&self) -> (r: Option<u32>)
        ensures
            r == (match self.descriptor {
                Some(d) => Some(d.texture_type),
                None => None::<u32>,
            }),
    {
        match self.descriptor {
            Some(d) => Some(d.texture_type),
            None => None,
        }
    }

    /// The texture's raw `MTLTextureUsage` bits, if the manifest describes it.
    pub fn usage(&self) -> (r: Option<u64>)
        ensures
            r == (match self.descriptor {
                Some(d) => Some(d.usage),
                None => None::<u64>,
            }),
    {
        match self.descriptor {
            Some(d) => Some(d.usage),
            None => None,
        }
    }
}

/// The result of joining fetched textures against manifest descriptors.
pub struct Descriptions {
    /// Aligned to the input textures: each fetched texture's manifest
    /// descriptor, or `None` if the manifest does not attribute it.
    pub per_texture: Vec<Option<TextureDescriptor>>,
    /// Manifest descriptors that no fetched texture claimed.
    pub unplaced: Vec<TextureDescriptor>,
    /// Manifest descriptors the join skipped as combined depth+stencil.
    /// Every descriptor is in exactly one of `per_texture` (as a matched
    /// `Some`), `unplaced`, or `transparent`.
    pub transparent: Vec<TextureDescriptor>,
}

/// The stream references of a list of textures.
pub open spec fn stream_refs(texs: Seq<Texture>) -> Seq<u64> {
    Seq::new(texs.len(), |i: int| texs[i].spec_stream_ref())
}

/// Whether texture `i` is the first with its stream reference.
pub open spec fn first_with_ref(refs: Seq<u64>, i: int) -> bool {
    forall|j: int| 0 <= j < i ==> refs[j] != refs[i]
}

/// `order` lists, by stream reference strictly ascending, the first texture
/// of each stream reference (a stable sort by stream reference that keeps
/// the first of any duplicates).
pub open spec fn is_ref_order(refs: Seq<u64>, order: Seq<usize>) -> bool {
    &&& forall|a: int|
        0 <= a < order.len() ==> (#[trigger] order[a]) < refs.len() && first_with_ref(
            refs,
            order[a] as int,
        )
    &&& forall|a: int, b: int|
        0 <= a < b < order.len() ==> refs[#[trigger] order[a] as int] < refs[#[trigger] order[b] as int]
    &&& forall|t: int| 0 <= t < refs.len() && first_with_ref(refs, t) ==> order.contains(t as usize)
}

/// The `(width, height, format)` keys of the textures `order` lists.
pub open spec fn order_keys(texs: Seq<Texture>, order: Seq<usize>) -> Seq<(u32, u32, u32)> {
    Seq::new(
        order.len(),
        |r: int|
            (
                texs[order[r] as int].spec_width(),
                texs[order[r] as int].spec_height(),
                texs[order[r] as int].spec_pixel_format(),
            ),
    )
}

/// The descriptors at the given positions.
pub open spec fn at_positions(descs: Seq<TextureDescriptor>, idx: Seq<usize>) -> Seq<TextureDescriptor> {
    Seq::new(idx.len(), |a: int| descs[idx[a] as int])
}

/// The join of `texs` against `descs`, with the textures taken in `order`:
/// each texture's descriptor is the one its rank paired with in the zip,
/// a texture `order` leaves out (a duplicate stream reference) has none.
pub open spec fn spec_describe(
    texs: Seq<Texture>,
    descs: Seq<TextureDescriptor>,
    order: Seq<usize>,
) -> (Seq<Option<TextureDescriptor>>, Seq<TextureDescriptor>, Seq<TextureDescriptor>) {
    let (matched, unplaced, transparent) = spec_zip(order_keys(texs, order), descs);
    (
        Seq::new(
            texs.len(),
            |t: int|
                if order.contains(t as usize) {
                    match matched[order.index_of(t as usize)] {
                        Some(j) => Some(descs[j as int]),
                        None => None,
                    }
                } else {
                    None
                },
        ),
        at_positions(descs, unplaced),
        at_positions(descs, transparent),
    )
}

/// Two lists, each strictly ascending by `key`, that hold the same
/// entries are equal.
proof fn lemma_sorted_unique(key: Seq<u64>, o1: Seq<usize>, o2: Seq<usize>)
    requires
        forall|a: int| 0 <= a < o1.len() ==> (#[trigger] o1[a]) < key.len(),
        forall|a: int| 0 <= a < o2.len() ==> (#[trigger] o2[a]) < key.len(),
        forall|a: int, b: int|
            0 <= a < b < o1.len() ==> key[#[trigger] o1[a] as int] < key[#[trigger] o1[b] as int],
        forall|a: int, b: int|
            0 <= a < b < o2.len() ==> key[#[trigger] o2[a] as int] < key[#[trigger] o2[b] as int],
        forall|x: usize| o1.contains(x) <==> o2.contains(x),
    ensures
        o1 == o2,
    decreases o1.len(),
{
    if o1.len() == 0 {
        if o2.len() > 0 {
            assert(o2.contains(o2[0]));
        }
        assert(o1 =~= o2);
    } else if o2.len() == 0 {
        assert(o1.contains(o1[0]));
    } else {
        let n1 = o1.len() - 1;
        let n2 = o2.len() - 1;
        let l1 = o1[n1];
        let l2 = o2[n2];
        assert(o1.contains(l1));
        assert(o2.contains(l2));
        let b = choose|a: int| 0 <= a < o2.len() && o2[a] == l1;
        let c = choose|a: int| 0 <= a < o1.len() && o1[a] == l2;
        if l1 != l2 {
            assert(b < n2);
            assert(key[o2[b] as int] < key[o2[n2] as int]);
            assert(c < n1);
            assert(key[o1[c] as int] < key[o1[n1] as int]);
        }
        let p1 = o1.drop_last();
        let p2 = o2.drop_last();
        assert forall|x: usize| p1.contains(x) <==> p2.contains(x) by {
            if p1.contains(x) {
                let a = choose|a: int| 0 <= a < p1.len() && p1[a] == x;
                assert(o1[a] == x);
                assert(key[o1[a] as int] < key[o1[n1] as int]);
                assert(o2.contains(x));
                let d = choose|d: int| 0 <= d < o2.len() && o2[d] == x;
                assert(d != n2);
                assert(p2[d] == x);
            }
            if p2.contains(x) {
                let a = choose|a: int| 0 <= a < p2.len() && p2[a] == x;
                assert(o2[a] == x);
                assert(key[o2[a] as int] < key[o2[n2] as int]);
                assert(o1.contains(x));
                let d = choose|d: int| 0 <= d < o1.len() && o1[d] == x;
                assert(d != n1);
                assert(p1[d] == x);
            }
        }
        assert forall|a: int, b: int|
            0 <= a < b < p1.len() implies key[#[trigger] p1[a] as int] < key[#[trigger] p1[b] as int] by {
            assert(p1[a] == o1[a] && p1[b] == o1[b]);
        }
        assert forall|a: int, b: int|
            0 <= a < b < p2.len() implies key[#[trigger] p2[a] as int] < key[#[trigger] p2[b] as int] by {
            assert(p2[a] == o2[a] && p2[b] == o2[b]);
        }
        assert forall|a: int| 0 <= a < p1.len() implies (#[trigger] p1[a]) < key.len() by {
            assert(p1[a] == o1[a]);
        }
        assert forall|a: int| 0 <= a < p2.len() implies (#[trigger] p2[a]) < key.len() by {
            assert(p2[a] == o2[a]);
        }
        lemma_sorted_unique(key, p1, p2);
        assert(o1 =~= p1.push(l1));
        assert(o2 =~= p2.push(l2));
    }
}

/// Only one list is such an order: it is fixed by the stream references.
pub proof fn lemma_ref_order_unique(refs: Seq<u64>, o1: Seq<usize>, o2: Seq<usize>)
    requires
        is_ref_order(refs, o1),
        is_ref_order(refs, o2),
    ensures
        o1 == o2,
{
    assert forall|x: usize| o1.contains(x) <==> o2.contains(x) by {
        if o1.contains(x) {
            let a = choose|a: int| 0 <= a < o1.len() && o1[a] == x;
            assert(o1[a] < refs.len() && first_with_ref(refs, o1[a] as int));
        }
        if o2.contains(x) {
            let a = choose|a: int| 0 <= a < o2.len() && o2[a] == x;
            assert(o2[a] < refs.len() && first_with_ref(refs, o2[a] as int));
        }
    }
    lemma_sorted_unique(refs, o1, o2);
}

proof fn lemma_count_some_update<T>(s: Seq<Option<T>>, t: int, x: Option<T>)
    requires
        0 <= t < s.len(),
        s[t] is None,
    ensures
        count_some(s.update(t, x)) == count_some(s) + if x is Some {
            1nat
        } else {
            0nat
        },
    decreases s.len(),
{
    let u = s.update(t, x);
    if t < s.len() - 1 {
        assert(u.drop_last() =~= s.drop_last().update(t, x));
        lemma_count_some_update(s.drop_last(), t, x);
    } else {
        assert(u.drop_last() =~= s.drop_last());
    }
}

proof fn lemma_count_some_none<T>(s: Seq<Option<T>>)
    requires
        forall|i: int| 0 <= i < s.len() ==> (#[trigger] s[i]) is None,
    ensures
        count_some(s) == 0,
    decreases s.len(),
{
    if s.len() > 0 {
        lemma_count_some_none(s.drop_last());
    }
}

/// The descriptor a pairing names.
pub open spec fn paired(descs: Seq<TextureDescriptor>, m: Option<usize>) -> Option<TextureDescriptor> {
    match m {
        Some(j) => Some(descs[j as int]),
        None => None,
    }
}

/// The textures' creation order: the first texture of each stream
/// reference, by stream reference ascending.
fn ref_order(texs: &[Texture]) -> (order: Vec<usize>)
    ensures
        is_ref_order(stream_refs(texs@), order@),
{
    let ghost refs = stream_refs(texs@);
    let n = texs.len();
    let mut order: Vec<usize> = Vec::new();
    let mut i: usize = 0;
    while i < n
        invariant
            n == texs@.len(),
            refs == stream_refs(texs@),
            i <= n,
            forall|a: int|
                0 <= a < order@.len() ==> (#[trigger] order@[a]) < i && first_with_ref(
                    refs,
                    order@[a] as int,
                ),
            forall|a: int, b: int|
                0 <= a < b < order@.len() ==> refs[#[trigger] order@[a] as int] < refs[#[trigger] order@[b] as int],
            forall|t: int| 0 <= t < i && first_with_ref(refs, t) ==> order@.contains(t as usize),
        decreases n - i,
    {
        let r = texs[i].stream_ref();
        assert(refs[i as int] == r);
        let mut first = true;
        let mut j: usize = 0;
        while j < i
            invariant
                i < n,
                n == texs@.len(),
                refs == stream_refs(texs@),
                refs[i as int] == r,
                j <= i,
                first <==> forall|k: int| 0 <= k < j ==> refs[k] != r,
            decreases i - j,
        {
            let rj = texs[j].stream_ref();
            assert(refs[j as int] == rj);
            if rj == r {
                first = false;
            }
            j = j + 1;
        }
        if first {
            let mut p: usize = 0;
            while p < order.len() && texs[order[p]].stream_ref() < r
                invariant
                    n == texs@.len(),
                    refs == stream_refs(texs@),
                    p <= order@.len(),
                    forall|a: int| 0 <= a < order@.len() ==> (#[trigger] order@[a]) < i,
                    i < n,
                    forall|a: int| 0 <= a < p ==> refs[#[trigger] order@[a] as int] < r,
                decreases order@.len() - p,
            {
                p = p + 1;
            }
            let ghost before = order@;
            assert(forall|a: int| 0 <= a < before.len() ==> refs[#[trigger] before[a] as int] != r);
            order.insert(p, i);
            assert forall|a: int, b: int|
                0 <= a < b < order@.len() implies refs[#[trigger] order@[a] as int] < refs[#[trigger] order@[b] as int] by {
                if b < p {
                    assert(order@[a] == before[a] && order@[b] == before[b]);
                } else if b == p {
                    assert(order@[a] == before[a]);
                } else if a < p {
                    assert(order@[a] == before[a] && order@[b] == before[b - 1]);
                    assert(refs[before[p as int] as int] > r);
                    if p < b - 1 {
                        assert(refs[before[p as int] as int] < refs[before[b - 1] as int]);
                    }
                } else if a == p {
                    assert(order@[b] == before[b - 1]);
                    assert(refs[before[p as int] as int] > r);
                    if p < b - 1 {
                        assert(refs[before[p as int] as int] < refs[before[b - 1] as int]);
                    }
                } else {
                    assert(order@[a] == before[a - 1] && order@[b] == before[b - 1]);
                }
            }
            assert forall|t: int| 0 <= t < i + 1 && first_with_ref(refs, t) implies order@.contains(
                t as usize,
            ) by {
                if t == i {
                    assert(order@[p as int] == i);
                } else {
                    let a = choose|a: int| 0 <= a < before.len() && before[a] == t as usize;
                    if a < p {
                        assert(order@[a] == t as usize);
                    } else {
                        assert(order@[a + 1] == t as usize);
                    }
                }
            }
        } else {
            assert forall|t: int| 0 <= t < i + 1 && first_with_ref(refs, t) implies order@.contains(
                t as usize,
            ) by {
                if t == i {
                    let k = choose|k: int| 0 <= k < i && refs[k] == r;
                    assert(refs[k] == refs[t]);
                }
            }
        }
        i = i + 1;
    }
    order
}

/// Join `texs` (fetched, in any order) against `descs` (the manifest's
/// descriptors, by `store0_offset`; empty when the manifest is absent):
/// the textures are taken by stream reference ascending, the first of any
/// duplicate reference kept, and zipped against the descriptors (see
/// [`zip_best_effort`]). Infallible: a gap in either direction is reported
/// through the result. Every descriptor lands in exactly one of the three
/// parts, so they add up to the number of descriptors.
pub fn describe_textures(texs: &[Texture], descs: &[TextureDescriptor]) -> (d: Descriptions)
    ensures
        exists|order: Seq<usize>|
            is_ref_order(stream_refs(texs@), order) && (d.per_texture@, d.unplaced@, d.transparent@)
                == spec_describe(texs@, descs@, order),
        count_some(d.per_texture@) + d.unplaced@.len() + d.transparent@.len() == descs@.len(),
{
    let order = ref_order(texs);
    let ghost refs = stream_refs(texs@);
    let m = order.len();
    let mut keys: Vec<(u32, u32, u32)> = Vec::new();
    let mut r: usize = 0;
    while r < m
        invariant
            m == order@.len(),
            is_ref_order(refs, order@),
            refs == stream_refs(texs@),
            r <= m,
            keys@ == order_keys(texs@, order@).take(r as int),
        decreases m - r,
    {
        let t = &texs[order[r]];
        keys.push((t.width(), t.height(), t.pixel_format()));
        assert(keys@ =~= order_keys(texs@, order@).take(r as int + 1));
        r = r + 1;
    }
    assert(keys@ =~= order_keys(texs@, order@));
    let (matched, unplaced_idx, transparent_idx) = zip_best_effort(keys.as_slice(), descs);
    let dn = descs.len();
    proof {
        lemma_zip_partitions(keys@, descs@);
        lemma_zip_walk(keys@, descs@, keys@.len() as int);
        let mt = zip_walk(keys@, descs@, keys@.len() as int).0;
        lemma_positions_below(
            descs@.len() as int,
            |k: int| !is_combined(descs@[k]) && !placed_in(mt, k),
        );
        lemma_positions_below(descs@.len() as int, |k: int| is_combined(descs@[k]));
    }
    let n = texs.len();
    let mut per_texture: Vec<Option<TextureDescriptor>> = Vec::new();
    let mut k: usize = 0;
    while k < n
        invariant
            k <= n,
            per_texture@.len() == k,
            forall|x: int| 0 <= x < k ==> (#[trigger] per_texture@[x]) is None,
        decreases n - k,
    {
        per_texture.push(None);
        k = k + 1;
    }
    proof {
        lemma_count_some_none(per_texture@);
        assert(matched@.take(0) =~= Seq::<Option<usize>>::empty());
    }
    let mut r: usize = 0;
    while r < m
        invariant
            m == order@.len(),
            n == texs@.len(),
            is_ref_order(refs, order@),
            refs == stream_refs(texs@),
            matched@.len() == m,
            forall|a: int| 0 <= a < m ==> (#[trigger] matched@[a] matches Some(j) ==> j < descs@.len()),
            r <= m,
            per_texture@.len() == n,
            forall|a: int| 0 <= a < r ==> per_texture@[#[trigger] order@[a] as int] == paired(descs@, matched@[a]),
            forall|t: int|
                0 <= t < n && (forall|a: int| 0 <= a < r ==> order@[a] != t as usize)
                    ==> (#[trigger] per_texture@[t]) is None,
            count_some(per_texture@) == count_some(matched@.take(r as int)),
        decreases m - r,
    {
        let t = order[r];
        assert(t < n);
        let x = match matched[r] {
            Some(j) => Some(descs[j]),
            None => None,
        };
        proof {
            assert forall|a: int| 0 <= a < r implies order@[a] != t by {
                assert(refs[order@[a] as int] < refs[order@[r as int] as int]);
            }
            lemma_count_some_update(per_texture@, t as int, x);
            assert(matched@.take(r as int + 1).drop_last() =~= matched@.take(r as int));
        }
        let ghost before = per_texture@;
        per_texture.set(t, x);
        proof {
            assert forall|a: int| 0 <= a < r + 1 implies per_texture@[#[trigger] order@[a] as int]
                == paired(descs@, matched@[a]) by {
                if a < r {
                    assert(order@[a] != t) by {
                        assert(refs[order@[a] as int] < refs[order@[r as int] as int]);
                    }
                }
            }
        }
        r = r + 1;
    }
    proof {
        assert(matched@.take(m as int) =~= matched@);
    }
    let mut unplaced: Vec<TextureDescriptor> = Vec::new();
    let mut a: usize = 0;
    while a < unplaced_idx.len()
        invariant
            a <= unplaced_idx@.len(),
            forall|b: int| 0 <= b < unplaced_idx@.len() ==> (#[trigger] unplaced_idx@[b]) < descs@.len(),
            unplaced@ == at_positions(descs@, unplaced_idx@.take(a as int)),
        decreases unplaced_idx@.len() - a,
    {
        unplaced.push(descs[unplaced_idx[a]]);
        assert(unplaced@ =~= at_positions(descs@, unplaced_idx@.take(a as int + 1)));
        a = a + 1;
    }
    let mut transparent: Vec<TextureDescriptor> = Vec::new();
    let mut a: usize = 0;
    while a < transparent_idx.len()
        invariant
            a <= transparent_idx@.len(),
            forall|b: int| 0 <= b < transparent_idx@.len() ==> (#[trigger] transparent_idx@[b]) < descs@.len(),
            transparent@ == at_positions(descs@, transparent_idx@.take(a as int)),
        decreases transparent_idx@.len() - a,
    {
        transparent.push(descs[transparent_idx[a]]);
        assert(transparent@ =~= at_positions(descs@, transparent_idx@.take(a as int + 1)));
        a = a + 1;
    }
    proof {
        assert(unplaced_idx@.take(unplaced_idx@.len() as int) =~= unplaced_idx@);
        assert(transparent_idx@.take(transparent_idx@.len() as int) =~= transparent_idx@);
        let spec = spec_describe(texs@, descs@, order@);
        assert forall|t: int| 0 <= t < n implies per_texture@[t] == spec.0[t] by {
            if order@.contains(t as usize) {
                let a = order@.index_of(t as usize);
                assert(per_texture@[order@[a] as int] == paired(descs@, matched@[a]));
            }
        }
        assert(per_texture@ =~= spec.0);
    }
    Descriptions { per_texture, unplaced, transparent }
}

} // verus!
