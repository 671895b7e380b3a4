//! Combinatorics of per-vertex normals on a triangle list. A face's normal is
//! the unit cross product of its edges; this module decides which faces feed
//! which vertex. With an index list every complete triple of entries is one
//! face, and a vertex receives the mean of the faces it is a corner of (once
//! per corner). Without one, consecutive triples of vertices form the faces
//! and each face's normal is handed to its own three vertices.
use vstd::prelude::*;

verus! {

/// Number of faces of an index list of `len` entries; a trailing partial
/// triple forms no face.
pub open spec fn face_count_of(len: nat) -> nat {
    len / 3
}

/// Faces that have `v` as a corner among the first `n` entries of `ix`, one
/// element per matching entry, in entry order.
pub open spec fn incident_faces(ix: Seq<u32>, v: int, n: nat) -> Seq<usize>
    decreases n,
{
    if n == 0 {
        Seq::empty()
    } else {
        let p = (n - 1) as nat;
        let prev = incident_faces(ix, v, p);
        if ix[p as int] as int == v {
            prev.push((p / 3) as usize)
        } else {
            prev
        }
    }
}

/// Each face in a vertex's incidence list has that vertex as a corner: the
/// entry at `i` of the list is a face `f` one of whose corners among the
/// first `n` entries references `v`.
pub proof fn lemma_incident_faces_sound(ix: Seq<u32>, v: int, n: nat, i: int)
    requires
        n <= ix.len() <= usize::MAX,
        0 <= i < incident_faces(ix, v, n).len(),
    ensures
        ({
            let f = incident_faces(ix, v, n)[i] as int;
            &&& 3 * f < n
            &&& (ix[3 * f] as int == v || (3 * f + 1 < n && ix[3 * f + 1] as int == v) || (3 * f
                + 2 < n && ix[3 * f + 2] as int == v))
        }),
    decreases n,
{
    let p = (n - 1) as nat;
    let prev = incident_faces(ix, v, p);
    if i < prev.len() {
        lemma_incident_faces_sound(ix, v, p, i);
    } else {
        let f = (p / 3) as int;
        assert(p == 3 * f || p == 3 * f + 1 || p == 3 * f + 2);
    }
}

/// Each corner of a face that references `v` puts that face in `v`'s
/// incidence list.
pub proof fn lemma_incident_faces_complete(ix: Seq<u32>, v: int, n: nat, p: int)
    requires
        n <= ix.len() <= usize::MAX,
        0 <= p < n,
        ix[p] as int == v,
    ensures
        incident_faces(ix, v, n).contains((p / 3) as usize),
    decreases n,
{
    let q = (n - 1) as nat;
    if p < q {
        lemma_incident_faces_complete(ix, v, q, p);
        let prev = incident_faces(ix, v, q);
        let k = choose|k: int| 0 <= k < prev.len() && prev[k] == (p / 3) as usize;
        if ix[q as int] as int == v {
            assert(incident_faces(ix, v, n)[k] == (p / 3) as usize);
        }
    } else {
        let cur = incident_faces(ix, v, n);
        assert(cur[cur.len() - 1] == (p / 3) as usize);
    }
}

/// Sum of the incidence-list lengths of vertices `0 .. vertex_count` over the
/// first `n` entries of `ix`.
pub open spec fn incidence_total(ix: Seq<u32>, vertex_count: nat, n: nat) -> nat
    decreases vertex_count,
{
    if vertex_count == 0 {
        0
    } else {
        let v = (vertex_count - 1) as nat;
        incidence_total(ix, v, n) + incident_faces(ix, v as int, n).len()
    }
}

proof fn lemma_incidence_total_empty(ix: Seq<u32>, vertex_count: nat)
    ensures
        incidence_total(ix, vertex_count, 0) == 0,
    decreases vertex_count,
{
    if vertex_count > 0 {
        lemma_incidence_total_empty(ix, (vertex_count - 1) as nat);
    }
}

proof fn lemma_incidence_total_step(ix: Seq<u32>, vertex_count: nat, n: nat)
    requires
        n < ix.len(),
    ensures
        incidence_total(ix, vertex_count, n + 1) == incidence_total(ix, vertex_count, n) + if (
        ix[n as int] as int) < vertex_count {
            1nat
        } else {
            0nat
        },
    decreases vertex_count,
{
    if vertex_count > 0 {
        let v = (vertex_count - 1) as nat;
        lemma_incidence_total_step(ix, v, n);
        assert(incident_faces(ix, v as int, n + 1) == if ix[n as int] as int == v {
            incident_faces(ix, v as int, n).push((n / 3) as usize)
        } else {
            incident_faces(ix, v as int, n)
        });
    }
}

/// Over vertices `0 .. vertex_count`, the incidence lists of the first `n`
/// entries hold `n` faces in all when every one of those entries addresses
/// one of the vertices: each corner is counted exactly once.
pub proof fn lemma_every_corner_counted_once(ix: Seq<u32>, vertex_count: nat, n: nat)
    requires
        n <= ix.len(),
        forall|p: int| 0 <= p < n ==> ix[p] < vertex_count,
    ensures
        incidence_total(ix, vertex_count, n) == n,
    decreases n,
{
    if n == 0 {
        lemma_incidence_total_empty(ix, vertex_count);
    } else {
        let m = (n - 1) as nat;
        lemma_every_corner_counted_once(ix, vertex_count, m);
        lemma_incidence_total_step(ix, vertex_count, m);
    }
}

/// The adjacency counts of all vertices of a mesh whose corners are in range
/// add up to three per face.
pub proof fn lemma_adjacency_counts_sum(ix: Seq<u32>, vertex_count: nat)
    requires
        corners_within(ix, vertex_count),
    ensures
        incidence_total(ix, vertex_count, 3 * face_count_of(ix.len())) == 3 * face_count_of(
            ix.len(),
        ),
{
    lemma_every_corner_counted_once(ix, vertex_count, 3 * face_count_of(ix.len()));
}

/// Every entry of the complete faces of `ix` addresses one of `vertex_count`
/// vertices.
pub open spec fn corners_within(ix: Seq<u32>, vertex_count: nat) -> bool {
    forall|p: int| 0 <= p < 3 * face_count_of(ix.len()) ==> ix[p] < vertex_count
}

/// Whether every corner of every complete face of `indices` addresses one of
/// `vertex_count` vertices.
pub fn corners_in_range(indices: &Vec<u32>, vertex_count: usize) -> (r: bool)
    ensures
        r == corners_within(indices@, vertex_count as nat),
{
    let n: usize = indices.len() / 3 * 3;
    let mut p: usize = 0;
    while p < n
        invariant
            n == 3 * face_count_of(indices@.len()),
            p <= n,
            forall|q: int| 0 <= q < p ==> indices@[q] < vertex_count,
        decreases n - p,
    {
        if indices[p] as usize >= vertex_count {
            return false;
        }
        p = p + 1;
    }
    true
}

/// The corners of each complete face of `indices`, in face order.
pub fn triangles(indices: &Vec<u32>) -> (r: Vec<(usize, usize, usize)>)
    ensures
        r@.len() == face_count_of(indices@.len()),
        forall|f: int|
            0 <= f < r@.len() ==> r@[f] == (
                indices@[3 * f] as usize,
                indices@[3 * f + 1] as usize,
                indices@[3 * f + 2] as usize,
            ),
{
    let len: usize = indices.len();
    let faces: usize = len / 3;
    let mut out: Vec<(usize, usize, usize)> = Vec::new();
    let mut f: usize = 0;
    let mut p: usize = 0;
    while f < faces
        invariant
            len == indices@.len(),
            faces == face_count_of(indices@.len()),
            f <= faces,
            p == 3 * f,
            out@.len() == f,
            forall|g: int|
                0 <= g < f ==> out@[g] == (
                    indices@[3 * g] as usize,
                    indices@[3 * g + 1] as usize,
                    indices@[3 * g + 2] as usize,
                ),
        decreases faces - f,
    {
        let a = indices[p] as usize;
        let b = indices[p + 1] as usize;
        let c = indices[p + 2] as usize;
        out.push((a, b, c));
        f = f + 1;
        p = p + 3;
    }
    out
}

/// For each of `vertex_count` vertices, the faces of `indices` that it is a
/// corner of, once per corner and in face order: the faces whose normals are
/// averaged into that vertex's normal. The length of a vertex's list is its
/// adjacency count; an unreferenced vertex has an empty list.
pub fn vertex_faces(indices: &Vec<u32>, vertex_count: usize) -> (r: Vec<Vec<usize>>)
    requires
        corners_within(indices@, vertex_count as nat),
    ensures
        r@.len() == vertex_count,
        forall|v: int|
            0 <= v < vertex_count ==> r@[v]@ == incident_faces(
                indices@,
                v,
                3 * face_count_of(indices@.len()),
            ),
{
    let mut out: Vec<Vec<usize>> = Vec::new();
    let mut v: usize = 0;
    while v < vertex_count
        invariant
            v <= vertex_count,
            out@.len() == v,
            forall|w: int| 0 <= w < v ==> out@[w]@ == Seq::<usize>::empty(),
        decreases vertex_count - v,
    {
        out.push(Vec::new());
        v = v + 1;
    }
    let n: usize = indices.len() / 3 * 3;
    let mut p: usize = 0;
    while p < n
        invariant
            n == 3 * face_count_of(indices@.len()),
            n <= indices@.len(),
            p <= n,
            corners_within(indices@, vertex_count as nat),
            out@.len() == vertex_count,
            forall|w: int|
                0 <= w < vertex_count ==> out@[w]@ == incident_faces(indices@, w, p as nat),
        decreases n - p,
    {
        let corner = indices[p] as usize;
        let ghost prev = out@;
        out[corner].push(p / 3);
        proof {
            assert forall|w: int| 0 <= w < vertex_count implies out@[w]@ == incident_faces(
                indices@,
                w,
                (p + 1) as nat,
            ) by {
                assert(prev[w]@ == incident_faces(indices@, w, p as nat));
                if w != corner {
                    assert(out@[w] == prev[w]);
                } else {
                    assert(out@[w]@ == prev[w]@.push(p / 3));
                    assert(incident_faces(indices@, w, (p + 1) as nat) == incident_faces(
                        indices@,
                        w,
                        p as nat,
                    ).push((p / 3) as usize));
                }
            }
        }
        p = p + 1;
    }
    out
}

/// For an unindexed list of `position_count` vertices (consecutive triples
/// are faces), the face whose normal each vertex receives: vertex `i` takes
/// the normal of face `i / 3`, so the three vertices of a face share it.
pub fn broadcast_faces(position_count: usize) -> (r: Vec<usize>)
    requires
        position_count % 3 == 0,
    ensures
        r@.len() == position_count,
        forall|i: int| 0 <= i < position_count ==> r@[i] == i / 3,
{
    let mut out: Vec<usize> = Vec::new();
    let mut i: usize = 0;
    while i < position_count
        invariant
            i <= position_count,
            out@.len() == i,
            forall|j: int| 0 <= j < i ==> out@[j] == j / 3,
        decreases position_count - i,
    {
        out.push(i / 3);
        i = i + 1;
    }
    out
}

} // verus!
