//! Turning model vertex lists into the triangles that the renderer stores,
//! and the frame handles (positions in the renderer's vertex buffer) by which
//! the models are drawn later.
use vstd::prelude::*;

use crate::error::{is_misc_error, NUError};
use crate::payload::{Vec2Bits, Vec3Bits};

verus! {

/// One triangle for the renderer: three corners and their texture
/// coordinates (the renderer computes the face normal).
#[derive(Debug, Clone, Copy, PartialEq, Eq)]
pub struct TriangleJob {
    pub v0: Vec3Bits,
    pub v1: Vec3Bits,
    pub v2: Vec3Bits,
    pub t0: Vec2Bits,
    pub t1: Vec2Bits,
    pub t2: Vec2Bits,
}

/// The triangles of one frame: consecutive corners three by three, with the
/// texture coordinates at the same places.
pub open spec fn frame_triangles(v: Seq<Vec3Bits>, u: Seq<Vec2Bits>) -> Seq<TriangleJob> {
    Seq::new(
        (v.len() / 3) as nat,
        |t: int|
            TriangleJob {
                v0: v[3 * t],
                v1: v[3 * t + 1],
                v2: v[3 * t + 2],
                t0: u[3 * t],
                t1: u[3 * t + 1],
                t2: u[3 * t + 2],
            },
    )
}

/// The triangles of all frames, frame after frame.
pub open spec fn frames_triangles(frames: Seq<Seq<Vec3Bits>>, u: Seq<Vec2Bits>) -> Seq<TriangleJob>
    decreases frames.len(),
{
    if frames.len() == 0 {
        Seq::empty()
    } else {
        frames_triangles(frames.drop_last(), u) + frame_triangles(frames.last(), u)
    }
}

/// The vertex lists of the frames.
pub open spec fn frames_view(frames: Seq<Vec<Vec3Bits>>) -> Seq<Seq<Vec3Bits>> {
    frames.map_values(|f: Vec<Vec3Bits>| f@)
}

/// Every frame has as many vertices as there are texture coordinates.
pub open spec fn frames_match(frames: Seq<Seq<Vec3Bits>>, u: Seq<Vec2Bits>) -> bool {
    forall|f: int| 0 <= f < frames.len() ==> (#[trigger] frames[f]).len() == u.len()
}

/// The frame handles: frame `f` starts `f` frames after `first`.
pub open spec fn frame_handles(n: nat, len: nat, first: int) -> Seq<usize> {
    Seq::new(n, |f: int| (first + f * len) as usize)
}

/// What packing gives: an error where a frame and the texture coordinates
/// differ in length, or where there is no frame; else the frame handles.
pub open spec fn pack_result(frames: Seq<Seq<Vec3Bits>>, u: Seq<Vec2Bits>, first: int) -> Result<
    Seq<usize>,
    Seq<char>,
> {
    if !frames_match(frames, u) {
        Err("vert len differs from uv len"@)
    } else if frames.len() == 0 {
        Err("frame handle length was 0"@)
    } else {
        Ok(frame_handles(frames.len(), u.len(), first))
    }
}

/// The triangles that packing hands to the renderer: none if a frame and the
/// texture coordinates differ in length.
pub open spec fn pack_jobs(frames: Seq<Seq<Vec3Bits>>, u: Seq<Vec2Bits>) -> Seq<TriangleJob> {
    if frames_match(frames, u) {
        frames_triangles(frames, u)
    } else {
        Seq::empty()
    }
}

/// The renderer's vertex count after packing.
pub open spec fn pack_vertex_count(frames: Seq<Seq<Vec3Bits>>, u: Seq<Vec2Bits>, first: int) -> int {
    if frames_match(frames, u) {
        first + frames.len() * u.len()
    } else {
        first
    }
}

/// Packing does not panic: where the lengths agree, vertices come in whole
/// triangles and the vertex count stays a `usize`.
pub open spec fn pack_ok(frames: Seq<Seq<Vec3Bits>>, u: Seq<Vec2Bits>, first: int) -> bool {
    frames_match(frames, u) ==> u.len() % 3 == 0 && first + frames.len() * u.len() <= usize::MAX
}

proof fn lemma_mul_le(f: int, n: int, len: int)
    requires
        0 <= f <= n,
        0 <= len,
    ensures
        f * len <= n * len,
        (f + 1) * len == f * len + len,
{
    assert(f * len <= n * len) by (nonlinear_arith)
        requires
            0 <= f <= n,
            0 <= len,
    ;
    assert((f + 1) * len == f * len + len) by (nonlinear_arith);
}

/// Packs the frames of a model: checks that every frame has one vertex per
/// texture coordinate, appends the triangles of every frame to `jobs`, and
/// gives the vertex-buffer position of each frame, counting from
/// `first_vertex`.
pub fn pack_floats(
    verts: Vec<Vec<Vec3Bits>>,
    uvs: Vec<Vec2Bits>,
    first_vertex: usize,
    jobs: &mut Vec<TriangleJob>,
) -> (res: Result<Vec<usize>, NUError>)
    requires
        pack_ok(frames_view(verts@), uvs@, first_vertex as int),
    ensures
        match pack_result(frames_view(verts@), uvs@, first_vertex as int) {
            Ok(h) => res is Ok && res->Ok_0@ == h,
            Err(msg) => res is Err && is_misc_error(res->Err_0, msg),
        },
        final(jobs)@ == old(jobs)@ + pack_jobs(frames_view(verts@), uvs@),
        (exists|f: int| 0 <= f < verts@.len() && (#[trigger] verts@[f])@.len() != uvs@.len())
            ==> res is Err && is_misc_error(res->Err_0, "vert len differs from uv len"@)
            && final(jobs)@ == old(jobs)@,
        verts@.len() == 0 ==> res is Err && is_misc_error(res->Err_0, "frame handle length was 0"@),
        res is Ok ==> res->Ok_0@.len() == verts@.len() && forall|f: int|
            0 <= f < verts@.len() ==> res->Ok_0@[f] == first_vertex + f * uvs@.len(),
        (forall|f: int| 0 <= f < verts@.len() ==> (#[trigger] verts@[f])@.len() == uvs@.len())
            ==> final(jobs)@.len() == old(jobs)@.len() + verts@.len() * (uvs@.len() / 3)
            && forall|k: int|
            0 <= k < verts@.len() * (uvs@.len() / 3) ==> #[trigger] final(jobs)@[old(jobs)@.len()
                + k] == corner_job(frames_view(verts@), uvs@, k),
{
    let ghost frames = frames_view(verts@);
    let n = verts.len();
    let len = uvs.len();
    let mut f: usize = 0;
    while f < n
        invariant
            n == verts@.len(),
            len == uvs@.len(),
            frames == frames_view(verts@),
            f <= n,
            forall|g: int| 0 <= g < f ==> (#[trigger] frames[g]).len() == len,
        decreases n - f,
    {
        if verts[f].len() != len {
            assert(!frames_match(frames, uvs@)) by {
                assert(frames[f as int].len() != len);
            }
            assert(old(jobs)@ + pack_jobs(frames, uvs@) =~= old(jobs)@);
            return Err(NUError::misc("vert len differs from uv len"));
        }
        f = f + 1;
    }
    assert(frames_match(frames, uvs@));
    let mut frame_handles_out: Vec<usize> = Vec::new();
    let mut count: usize = first_vertex;
    let ghost start_jobs = jobs@;
    let mut f: usize = 0;
    while f < n
        invariant
            n == verts@.len(),
            len == uvs@.len(),
            frames == frames_view(verts@),
            frames_match(frames, uvs@),
            pack_ok(frames, uvs@, first_vertex as int),
            f <= n,
            count == first_vertex + f * len,
            frame_handles_out@ =~= frame_handles(n as nat, len as nat, first_vertex as int).take(
                f as int,
            ),
            jobs@ =~= start_jobs + frames_triangles(frames.take(f as int), uvs@),
        decreases n - f,
    {
        proof {
            lemma_mul_le(f as int, n as int, len as int);
            lemma_mul_le(f + 1, n as int, len as int);
        }
        frame_handles_out.push(count);
        let frame = &verts[f];
        assert(frame@ == frames[f as int]);
        let ghost before = jobs@;
        let mut t: usize = 0;
        while t < len / 3
            invariant
                len == uvs@.len(),
                len % 3 == 0,
                frame@.len() == len,
                t <= len / 3,
                jobs@ =~= before + frame_triangles(frame@, uvs@).take(t as int),
            decreases len / 3 - t,
        {
            let i = 3 * t;
            jobs.push(
                TriangleJob {
                    v0: frame[i],
                    v1: frame[i + 1],
                    v2: frame[i + 2],
                    t0: uvs[i],
                    t1: uvs[i + 1],
                    t2: uvs[i + 2],
                },
            );
            t = t + 1;
        }
        assert(frame_triangles(frame@, uvs@).take((len / 3) as int) =~= frame_triangles(
            frame@,
            uvs@,
        ));
        assert(frames.take(f + 1).drop_last() =~= frames.take(f as int));
        assert(frames.take(f + 1).last() == frames[f as int]);
        count = count + len;
        f = f + 1;
    }
    assert(frames.take(n as int) =~= frames);
    proof {
        assert forall|g: int| 0 <= g < verts@.len() implies (#[trigger] verts@[g])@.len()
            == uvs@.len() by {
            assert(frames[g] == verts@[g]@);
        }
        assert forall|g: int| 0 <= g < verts@.len() implies frame_handles_out@[g] == first_vertex + g
            * uvs@.len() by {
            lemma_mul_le(g, n as int, len as int);
        }
        lemma_triangles_follow_corners(frames, uvs@);
        assert forall|k: int| 0 <= k < verts@.len() * (uvs@.len() / 3) implies #[trigger] jobs@[old(
            jobs,
        )@.len() + k] == corner_job(frames_view(verts@), uvs@, k) by {
            assert(jobs@[old(jobs)@.len() + k] == frames_triangles(frames, uvs@)[k]);
        }
    }
    if frame_handles_out.len() == 0 {
        return Err(NUError::misc("frame handle length was 0"));
    }
    Ok(frame_handles_out)
}

proof fn lemma_triangle_count(frames: Seq<Seq<Vec3Bits>>, u: Seq<Vec2Bits>, f: int)
    requires
        0 <= f <= frames.len(),
        frames_match(frames, u),
    ensures
        frames_triangles(frames.take(f), u).len() == f * (u.len() / 3),
    decreases f,
{
    if f > 0 {
        assert(frames.take(f).drop_last() =~= frames.take(f - 1));
        assert(frames.take(f).last() == frames[f - 1]);
        lemma_triangle_count(frames, u, f - 1);
        assert((f - 1) * (u.len() / 3) + u.len() / 3 == f * (u.len() / 3)) by (nonlinear_arith);
    } else {
        assert(frames.take(0) =~= Seq::<Seq<Vec3Bits>>::empty());
    }
}

/// Where packing succeeds, each frame handle is the position in the
/// renderer's vertex buffer of the first vertex of that frame's triangles:
/// the vertices handed over before it, three per triangle, counted from
/// `first`; and the vertex count afterwards is `first` plus three per
/// triangle handed over.
pub proof fn lemma_handles_count_triangles(frames: Seq<Seq<Vec3Bits>>, u: Seq<Vec2Bits>, first: int)
    requires
        pack_ok(frames, u, first),
        pack_result(frames, u, first) is Ok,
        first >= 0,
    ensures
        forall|f: int|
            0 <= f < frames.len() ==> pack_result(frames, u, first)->Ok_0[f] == first + 3
                * frames_triangles(frames.take(f), u).len(),
        pack_vertex_count(frames, u, first) == first + 3 * pack_jobs(frames, u).len(),
{
    let len = u.len() as int;
    assert(len % 3 == 0);
    assert forall|f: int| 0 <= f < frames.len() implies pack_result(frames, u, first)->Ok_0[f]
        == first + 3 * frames_triangles(frames.take(f), u).len() by {
        lemma_triangle_count(frames, u, f);
        lemma_mul_le(f, frames.len() as int, len);
        assert(3 * (f * (len / 3)) == f * len) by (nonlinear_arith)
            requires
                len % 3 == 0,
        ;
    }
    lemma_triangle_count(frames, u, frames.len() as int);
    assert(frames.take(frames.len() as int) =~= frames);
    assert(3 * (frames.len() * (len / 3)) == frames.len() * len) by (nonlinear_arith)
        requires
            len % 3 == 0,
    ;
}

/// The `k`-th triangle handed over for frames whose vertex lists all match
/// the texture coordinates: triangle `k % n` of frame `k / n`, where `n` is
/// the number of triangles of a frame; its corners are that frame's
/// vertices `3t`, `3t + 1`, `3t + 2`, and its texture coordinates are the
/// coordinates at the same three positions.
pub open spec fn corner_job(frames: Seq<Seq<Vec3Bits>>, u: Seq<Vec2Bits>, k: int) -> TriangleJob {
    let n = u.len() / 3;
    let f = k / (n as int);
    let t = k % (n as int);
    TriangleJob {
        v0: frames[f][3 * t],
        v1: frames[f][3 * t + 1],
        v2: frames[f][3 * t + 2],
        t0: u[3 * t],
        t1: u[3 * t + 1],
        t2: u[3 * t + 2],
    }
}

/// The triangles handed over for matching frames are the frames' vertices
/// three by three, frame after frame, each triangle with the texture
/// coordinates of its own three vertices.
pub proof fn lemma_triangles_follow_corners(frames: Seq<Seq<Vec3Bits>>, u: Seq<Vec2Bits>)
    requires
        forall|f: int| 0 <= f < frames.len() ==> (#[trigger] frames[f]).len() == u.len(),
        u.len() % 3 == 0,
    ensures
        frames_triangles(frames, u).len() == frames.len() * (u.len() / 3),
        forall|k: int|
            0 <= k < frames_triangles(frames, u).len() ==> #[trigger] frames_triangles(frames, u)[k]
                == corner_job(frames, u, k),
    decreases frames.len(),
{
    let n = (u.len() / 3) as int;
    if frames.len() > 0 {
        let dl = frames.drop_last();
        lemma_triangles_follow_corners(dl, u);
        let m = dl.len() as int;
        assert(frames_triangles(frames, u) == frames_triangles(dl, u) + frame_triangles(
            frames.last(),
            u,
        ));
        assert((m + 1) * n == m * n + n) by (nonlinear_arith);
        assert(frames.last() == frames[m]);
        assert(frame_triangles(frames.last(), u).len() == n);
        assert(n == 0 ==> m * n == 0) by (nonlinear_arith);
        assert(frames_triangles(frames, u).len() == m * n + n);
        assert forall|k: int| 0 <= k < frames_triangles(frames, u).len() implies #[trigger] frames_triangles(
            frames,
            u,
        )[k] == corner_job(frames, u, k) by {
            assert(n > 0);
            vstd::arithmetic::div_mod::lemma_fundamental_div_mod(k, n);
            if k < m * n {
                let q = k / n;
                assert(q < m) by (nonlinear_arith)
                    requires
                        k == n * q + k % n,
                        0 <= k % n,
                        k < m * n,
                        n > 0,
                ;
                assert(frames_triangles(frames, u)[k] == frames_triangles(dl, u)[k]);
                assert(dl[q] == frames[q]);
            } else {
                let t = k - m * n;
                vstd::arithmetic::div_mod::lemma_fundamental_div_mod_converse(k, n, m, t);
                assert(frames_triangles(frames, u)[k] == frame_triangles(frames.last(), u)[t]);
            }
        }
    }
}

} // verus!
