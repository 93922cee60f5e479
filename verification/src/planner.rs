//! The chunk planner: split an ordered track list into bounded batches, one
//! batch per concurrent worker. Order is preserved within and across chunks,
//! chunk sizes are bounded by the effective parallelism, and the partition is
//! deterministic.

use crate::models::spotify::SpotifyTrack;
use vstd::arithmetic::div_mod::lemma_fundamental_div_mod_converse;
use vstd::prelude::*;

verus! {

/// The element sequences of a list of vectors.
pub open spec fn spec_vec_views<T>(s: Seq<Vec<T>>) -> Seq<Seq<T>> {
    s.map_values(|v: Vec<T>| v@)
}

/// The parallelism actually used: the configured value, clamped to the track
/// count so that no chunk is empty and no worker idle.
pub open spec fn spec_effective_parallelism(n: nat, p: nat) -> nat {
    if p <= n {
        p
    } else {
        n
    }
}

/// How many chunks a list of `n` tracks yields under parallelism `p`: none
/// for an empty list, and otherwise one chunk of `min(p, n)` tracks peeled
/// off at a time.
pub open spec fn spec_chunk_count(n: nat, p: nat) -> nat
    decreases n,
{
    if p == 0 || n == 0 {
        0
    } else if n <= p {
        1
    } else {
        1 + spec_chunk_count((n - p) as nat, p)
    }
}

/// Chunk `i` of a track list: the `i`-th window of `min(p, n)` consecutive
/// tracks, the last window being whatever remains.
pub open spec fn spec_chunk(tracks: Seq<SpotifyTrack>, p: nat, i: int) -> Seq<SpotifyTrack> {
    let e = spec_effective_parallelism(tracks.len(), p) as int;
    let lo = i * e;
    let hi = if lo + e <= tracks.len() {
        lo + e
    } else {
        tracks.len() as int
    };
    tracks.subrange(lo, hi)
}

/// The chunk count is at least one for a nonempty list, covers all tracks,
/// and wastes no chunk: one fewer chunk would not reach `n`.
pub proof fn lemma_chunk_count_bounds(n: nat, p: nat)
    requires
        p >= 1,
        n >= 1,
    ensures
        spec_chunk_count(n, p) >= 1,
        spec_chunk_count(n, p) * spec_effective_parallelism(n, p) >= n,
        (spec_chunk_count(n, p) - 1) * spec_effective_parallelism(n, p) < n,
    decreases n,
{
    let e = spec_effective_parallelism(n, p);
    let c = spec_chunk_count(n, p);
    if n <= p {
        assert(c == 1);
        assert(1 * e == e) by (nonlinear_arith);
        assert(0 * e == 0) by (nonlinear_arith);
    } else {
        let c1 = spec_chunk_count((n - p) as nat, p);
        lemma_chunk_count_bounds((n - p) as nat, p);
        let e1 = spec_effective_parallelism((n - p) as nat, p);
        if n - p <= p {
            assert(c1 == 1);
            assert(c == 2);
            assert(2 * p >= n && 1 * p < n) by (nonlinear_arith)
                requires
                    n - p <= p,
                    n > p,
            ;
        } else {
            assert(e1 == p);
            assert(c == c1 + 1);
            assert((c1 + 1) * p >= n && c1 * p < n) by (nonlinear_arith)
                requires
                    c1 * p >= n - p,
                    (c1 - 1) * p < n - p,
            ;
        }
    }
}

/// The chunk count equals the ceiling of `n / min(p, n)` for a nonempty list.
pub proof fn lemma_chunk_count_is_ceil(n: nat, p: nat)
    requires
        p >= 1,
        n >= 1,
    ensures
        spec_chunk_count(n, p) == (n + spec_effective_parallelism(n, p) - 1) as int
            / spec_effective_parallelism(n, p) as int,
{
    let e = spec_effective_parallelism(n, p) as int;
    let c = spec_chunk_count(n, p) as int;
    lemma_chunk_count_bounds(n, p);
    let x = n + e - 1;
    let r = x - c * e;
    assert(0 <= r < e) by (nonlinear_arith)
        requires
            e >= 1,
            c * e >= n,
            (c - 1) * e < n,
            r == n + e - 1 - c * e,
    ;
    lemma_fundamental_div_mod_converse(x, e, c, r);
}

/// No chunk is empty, none exceeds the effective parallelism, and every
/// chunk but the last is full.
pub proof fn lemma_chunk_sizes(tracks: Seq<SpotifyTrack>, p: nat, i: int)
    requires
        p >= 1,
        0 <= i < spec_chunk_count(tracks.len(), p),
    ensures
        0 < spec_chunk(tracks, p, i).len() <= spec_effective_parallelism(tracks.len(), p),
        i < spec_chunk_count(tracks.len(), p) - 1 ==> spec_chunk(tracks, p, i).len()
            == spec_effective_parallelism(tracks.len(), p),
{
    let n = tracks.len() as int;
    let e = spec_effective_parallelism(tracks.len(), p) as int;
    let c = spec_chunk_count(tracks.len(), p) as int;
    lemma_chunk_count_bounds(tracks.len(), p);
    assert(0 <= i * e && i * e <= (c - 1) * e) by (nonlinear_arith)
        requires
            0 <= i <= c - 1,
            e >= 1,
    ;
    assert(i * e < n);
    if i < c - 1 {
        assert((i + 1) * e <= (c - 1) * e) by (nonlinear_arith)
            requires
                i + 1 <= c - 1,
                e >= 1,
        ;
        assert((i + 1) * e == i * e + e) by (nonlinear_arith);
    }
}

/// With more workers than tracks (and at least one track), the whole list is
/// one single chunk.
pub proof fn lemma_single_chunk(tracks: Seq<SpotifyTrack>, p: nat)
    requires
        tracks.len() >= 1,
        p >= tracks.len(),
    ensures
        spec_chunk_count(tracks.len(), p) == 1,
        spec_effective_parallelism(tracks.len(), p) == tracks.len(),
        spec_chunk(tracks, p, 0) == tracks,
{
    assert(spec_chunk(tracks, p, 0) =~= tracks);
}

/// The partition is deterministic: any two chunk lists that satisfy the
/// planner's contract for the same input are the same list.
pub proof fn lemma_partition_deterministic(
    a: Seq<Seq<SpotifyTrack>>,
    b: Seq<Seq<SpotifyTrack>>,
    tracks: Seq<SpotifyTrack>,
    p: nat,
)
    requires
        a.len() == spec_chunk_count(tracks.len(), p),
        forall|i: int| 0 <= i < a.len() ==> a[i] == spec_chunk(tracks, p, i),
        b.len() == spec_chunk_count(tracks.len(), p),
        forall|i: int| 0 <= i < b.len() ==> b[i] == spec_chunk(tracks, p, i),
    ensures
        a == b,
{
    assert(a =~= b);
}

/// Concatenating the chunks in order reproduces the original track list; in
/// particular the chunk sizes sum to its length.
pub proof fn lemma_chunks_flatten(chunks: Seq<Seq<SpotifyTrack>>, tracks: Seq<SpotifyTrack>, p: nat)
    requires
        p >= 1,
        chunks.len() == spec_chunk_count(tracks.len(), p),
        forall|i: int| 0 <= i < chunks.len() ==> chunks[i] == spec_chunk(tracks, p, i),
    ensures
        chunks.flatten() == tracks,
    decreases chunks.len(),
{
    let n = tracks.len() as int;
    if tracks.len() == 0 {
        assert(chunks.len() == 0);
        assert(chunks.flatten() =~= tracks);
    } else if tracks.len() <= p {
        assert(chunks.len() == 1);
        assert(chunks[0] == spec_chunk(tracks, p, 0));
        assert(0 * n == 0) by (nonlinear_arith);
        assert(chunks[0] =~= tracks);
        chunks.lemma_flatten_one_element();
    } else {
        let e = p as int;
        assert(spec_effective_parallelism(tracks.len(), p) == p);
        let rest = tracks.subrange(e, n);
        let tail = chunks.drop_first();
        assert(tail.len() == spec_chunk_count(rest.len(), p));
        assert forall|i: int| 0 <= i < tail.len() implies tail[i] == spec_chunk(rest, p, i) by {
            assert(chunks[i + 1] == spec_chunk(tracks, p, i + 1));
            let e1 = spec_effective_parallelism(rest.len(), p) as int;
            if rest.len() <= p {
                assert(tail.len() == 1);
                assert(i == 0);
                assert(0 * e1 == 0) by (nonlinear_arith);
                assert(1 * e == e) by (nonlinear_arith);
                assert(2 * e == e + e) by (nonlinear_arith);
                assert(spec_chunk(tracks, p, 1) == tracks.subrange(e, n));
                assert(spec_chunk(rest, p, 0) =~= spec_chunk(tracks, p, 1));
            } else {
                assert(e1 == e);
                let c = spec_chunk_count(rest.len(), p) as int;
                lemma_chunk_count_bounds(rest.len(), p);
                assert(i * e >= 0 && i * e <= (c - 1) * e) by (nonlinear_arith)
                    requires
                        0 <= i <= c - 1,
                        e >= 1,
                ;
                assert(i * e < rest.len());
                let lo = i * e;
                let hi = if lo + e <= rest.len() {
                    lo + e
                } else {
                    rest.len() as int
                };
                assert(spec_chunk(rest, p, i) == rest.subrange(lo, hi));
                let lo2 = (i + 1) * e;
                let hi2 = if lo2 + e <= n {
                    lo2 + e
                } else {
                    n
                };
                assert(spec_chunk(tracks, p, i + 1) == tracks.subrange(lo2, hi2));
                assert((i + 1) * e == i * e + e) by (nonlinear_arith);
                assert(lo2 == lo + e);
                assert(hi2 == hi + e);
                assert(rest.subrange(lo, hi) =~= tracks.subrange(lo2, hi2));
            }
        }
        lemma_chunks_flatten(tail, rest, p);
        assert(1 * e == e) by (nonlinear_arith);
        assert(0 * e == 0) by (nonlinear_arith);
        assert(chunks[0] == spec_chunk(tracks, p, 0));
        assert(chunks[0] =~= tracks.subrange(0, e));
        assert(chunks.flatten() == chunks[0] + tail.flatten());
        assert(chunks.flatten() =~= tracks);
    }
}

/// Split `tracks` into chunks of at most `min(parallelism, len)` tracks,
/// preserving order: chunk `i` is exactly the `i`-th consecutive window.
pub fn chunk_tracks(tracks: Vec<SpotifyTrack>, parallelism: u32) -> (chunks: Vec<
    Vec<SpotifyTrack>,
>)
    requires
        parallelism >= 1,
    ensures
        chunks@.len() == spec_chunk_count(tracks@.len(), parallelism as nat),
        forall|i: int|
            0 <= i < chunks@.len() ==> #[trigger] chunks@[i]@ == spec_chunk(
                tracks@,
                parallelism as nat,
                i,
            ),
        spec_vec_views(chunks@).flatten() == tracks@,
{
    let ghost orig = tracks@;
    let ghost p = parallelism as nat;
    let n = tracks.len();
    if n == 0 {
        let chunks: Vec<Vec<SpotifyTrack>> = Vec::new();
        proof {
            assert(spec_vec_views(chunks@) =~= Seq::<Seq<SpotifyTrack>>::empty());
            assert(spec_vec_views(chunks@).flatten() =~= orig);
        }
        return chunks;
    }
    let eff: usize = if (parallelism as usize) <= n {
        parallelism as usize
    } else {
        n
    };
    let ghost e = eff as int;
    let mut chunks: Vec<Vec<SpotifyTrack>> = Vec::new();
    let mut rest = tracks;
    let ghost mut start: int = 0;
    proof {
        assert(0 * e == 0) by (nonlinear_arith);
        assert(rest@ =~= orig.subrange(0, orig.len() as int));
    }
    while rest.len() > eff
        invariant
            1 <= eff,
            e == eff as int,
            e == spec_effective_parallelism(orig.len(), p) as int,
            p >= 1,
            orig.len() > 0,
            start == chunks@.len() * e,
            0 <= start <= orig.len(),
            rest@ == orig.subrange(start, orig.len() as int),
            rest@.len() > 0,
            spec_chunk_count(orig.len(), p) == chunks@.len() + spec_chunk_count(rest@.len(), p),
            forall|i: int|
                0 <= i < chunks@.len() ==> #[trigger] chunks@[i]@ == spec_chunk(orig, p, i),
        decreases rest@.len(),
    {
        let ghost old_rest = rest@;
        let ghost k = chunks@.len() as int;
        let tail = rest.split_off(eff);
        chunks.push(rest);
        rest = tail;
        proof {
            assert((k + 1) * e == k * e + e) by (nonlinear_arith);
            assert(old_rest.len() == orig.len() - start);
            assert(start + e < orig.len());
            assert(chunks@[k]@ == old_rest.subrange(0, e));
            assert(chunks@[k]@ =~= orig.subrange(start, start + e));
            let lo = k * e;
            assert(lo == start);
            assert(spec_chunk(orig, p, k) == orig.subrange(lo, lo + e));
            assert(chunks@[k]@ == spec_chunk(orig, p, k));
            start = start + e;
            assert(rest@ =~= orig.subrange(start, orig.len() as int));
            // peeling a full window keeps the count ledger balanced
            assert(e == p || orig.len() <= p);
            assert(old_rest.len() > e);
            if e == p {
                assert(spec_chunk_count(old_rest.len(), p) == 1 + spec_chunk_count(
                    (old_rest.len() - p) as nat,
                    p,
                ));
            }
        }
    }
    let ghost k = chunks@.len() as int;
    chunks.push(rest);
    proof {
        assert(spec_chunk_count(rest@.len(), p) == 1);
        assert(chunks@[k]@ == orig.subrange(start, orig.len() as int));
        let lo = k * e;
        assert(lo == start);
        lemma_chunk_count_bounds(orig.len(), p);
        assert((k + 1) * e == k * e + e) by (nonlinear_arith);
        assert(chunks@.len() == spec_chunk_count(orig.len(), p));
        assert(start + e >= orig.len());
        assert(spec_chunk(orig, p, k) == orig.subrange(start, orig.len() as int));
        assert(forall|i: int|
            0 <= i < chunks@.len() ==> #[trigger] chunks@[i]@ == spec_chunk(orig, p, i));
        let views = spec_vec_views(chunks@);
        assert(forall|i: int| 0 <= i < views.len() ==> #[trigger] views[i] == spec_chunk(orig, p, i));
        lemma_chunks_flatten(views, orig, p);
    }
    chunks
}

} // verus!
