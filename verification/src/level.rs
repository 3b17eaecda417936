//! Loading a compiled map in the earlier level format, which keeps the
//! decoration models and placed decorations apart from the entities: the
//! decoration models go to the renderer first, each as one frame, then the
//! entity models with all their frames.
use vstd::prelude::*;

use crate::big_buffer::strings_view;
use crate::error::{is_misc_error, NUError};
use crate::map::{clone_strings, copy_items};
use crate::mesh::{
    frames_match, frames_view, pack_floats, pack_jobs, pack_ok, pack_result, pack_vertex_count,
    TriangleJob,
};
use crate::payload::{
    float_run_ok, float_runs_ok, gather_vec2, gather_vec2_spec, gather_vec3, gather_vec3_spec,
    quat_at, read_quat, read_vec3, vec3_at, MapInsDecor, MapInsEntity, MapRefDecor, MapRefEntity,
    Payload, QuatBits, Vec2Bits, Vec3Bits,
};

verus! {

/// The name tables a loaded level keeps.
pub struct LevelPayload {
    pub drn_data: Vec<String>,
    pub ern_data: Vec<String>,
    pub kvs_data: Vec<String>,
    pub fn_data: Vec<String>,
}

/// A loaded level.
pub struct Level {
    pub payload: LevelPayload,
    pub img_handles: Vec<usize>,
    pub map_entities: Vec<Entity>,
    pub ref_entities: Vec<LoadedEnttReference>,
    pub map_decor: Vec<Decor>,
    pub ref_decor: Vec<LoadedDecorReference>,
}

/// A placed entity of a level.
pub struct Entity {
    pub index: usize,
    pub has_ref: bool,
    pub params: Vec<u32>,
    pub location: Vec3Bits,
    pub rotation: QuatBits,
    pub scale: Vec3Bits,
}

/// A placed decoration: its model and its transform as float bit patterns.
#[derive(Debug, Clone, Copy, PartialEq, Eq)]
pub struct Decor {
    pub ref_id: usize,
    pub location: Vec3Bits,
    pub rotation: QuatBits,
    pub scale: Vec3Bits,
}

/// A loaded decoration model: its name, texture and vertex-buffer position.
#[derive(Debug, Clone, Copy, PartialEq, Eq)]
pub struct LoadedDecorReference {
    pub index: usize,
    pub texture_handle: usize,
    pub frame_handle: usize,
}

/// A loaded entity model of a level: its name, texture and the
/// vertex-buffer position of each frame.
pub struct LoadedEnttReference {
    pub index: usize,
    pub texture_handle: usize,
    pub frame_handles: Vec<usize>,
}

impl Clone for LoadedEnttReference {
    fn clone(&self) -> (res: Self)
        ensures
            res@ == self@,
    {
        LoadedEnttReference {
            index: self.index,
            texture_handle: self.texture_handle,
            frame_handles: copy_items(&self.frame_handles),
        }
    }
}

/// The abstract value of a placed entity of a level.
pub struct LevelEntityView {
    pub index: usize,
    pub has_ref: bool,
    pub params: Seq<u32>,
    pub location: Vec3Bits,
    pub rotation: QuatBits,
    pub scale: Vec3Bits,
}

/// The abstract value of a loaded entity model of a level.
pub struct LevelEnttRefView {
    pub index: usize,
    pub texture_handle: usize,
    pub frame_handles: Seq<usize>,
}

impl View for Entity {
    type V = LevelEntityView;

    open spec fn view(&self) -> LevelEntityView {
        LevelEntityView {
            index: self.index,
            has_ref: self.has_ref,
            params: self.params@,
            location: self.location,
            rotation: self.rotation,
            scale: self.scale,
        }
    }
}

impl View for LoadedEnttReference {
    type V = LevelEnttRefView;

    open spec fn view(&self) -> LevelEnttRefView {
        LevelEnttRefView {
            index: self.index,
            texture_handle: self.texture_handle,
            frame_handles: self.frame_handles@,
        }
    }
}

/// The single frame of a decoration model, read from the float table.
pub open spec fn decor_frames(p: Payload, rd: MapRefDecor) -> Seq<Seq<Vec3Bits>> {
    seq![gather_vec3_spec(p.floats@, rd.vertices@)]
}

/// The texture coordinates of a decoration model.
pub open spec fn decor_uvs(p: Payload, rd: MapRefDecor) -> Seq<Vec2Bits> {
    gather_vec2_spec(p.floats@, rd.uvs@)
}

/// The frames of an entity model, read from the float table.
pub open spec fn entt_frames(p: Payload, re: MapRefEntity) -> Seq<Seq<Vec3Bits>> {
    Seq::new(re.vertices@.len(), |f: int| gather_vec3_spec(p.floats@, re.vertices@[f]@))
}

/// The texture coordinates of an entity model.
pub open spec fn entt_uvs(p: Payload, re: MapRefEntity) -> Seq<Vec2Bits> {
    gather_vec2_spec(p.floats@, re.uvs@)
}

/// The state of loading after some models: whether nothing panicked, the
/// error that stopped loading if one did, the renderer's vertex count, the
/// models loaded and the triangles handed to the renderer.
pub struct LevelSim<R> {
    pub ok: bool,
    pub err: Option<Seq<char>>,
    pub count: int,
    pub refs: Seq<R>,
    pub jobs: Seq<TriangleJob>,
}

/// Loading a decoration model at vertex count `c` does not panic.
pub open spec fn decor_ok(p: Payload, handles: Seq<usize>, rd: MapRefDecor, c: int) -> bool {
    &&& float_runs_ok(p.floats@, rd.vertices@, 3)
    &&& float_runs_ok(p.floats@, rd.uvs@, 2)
    &&& pack_ok(decor_frames(p, rd), decor_uvs(p, rd), c)
    &&& pack_result(decor_frames(p, rd), decor_uvs(p, rd), c) is Ok ==> (rd.texture as int)
        < handles.len()
}

/// Loading the first `n` decoration models, from vertex count `first`.
pub open spec fn decor_sim(p: Payload, handles: Seq<usize>, first: int, n: nat) -> LevelSim<
    LoadedDecorReference,
>
    decreases n,
{
    if n == 0 {
        LevelSim { ok: true, err: None, count: first, refs: Seq::empty(), jobs: Seq::empty() }
    } else {
        let s = decor_sim(p, handles, first, (n - 1) as nat);
        if !s.ok || s.err is Some {
            s
        } else {
            let rd = p.map_ref_decs@[n - 1];
            let frames = decor_frames(p, rd);
            let uvs = decor_uvs(p, rd);
            if !decor_ok(p, handles, rd, s.count) {
                LevelSim { ok: false, ..s }
            } else {
                match pack_result(frames, uvs, s.count) {
                    Err(msg) => LevelSim {
                        err: Some(msg),
                        jobs: s.jobs + pack_jobs(frames, uvs),
                        ..s
                    },
                    Ok(h) => LevelSim {
                        ok: true,
                        err: None,
                        count: pack_vertex_count(frames, uvs, s.count),
                        refs: s.refs.push(
                            LoadedDecorReference {
                                index: rd.name as usize,
                                texture_handle: handles[rd.texture as int],
                                frame_handle: h[0],
                            },
                        ),
                        jobs: s.jobs + pack_jobs(frames, uvs),
                    },
                }
            }
        }
    }
}

/// Loading an entity model at vertex count `c` does not panic.
pub open spec fn entt_ok(p: Payload, handles: Seq<usize>, re: MapRefEntity, c: int) -> bool {
    &&& forall|f: int|
        0 <= f < re.vertices@.len() ==> float_runs_ok(p.floats@, (#[trigger] re.vertices@[f])@, 3)
    &&& float_runs_ok(p.floats@, re.uvs@, 2)
    &&& (re.texture as int) < handles.len()
    &&& pack_ok(entt_frames(p, re), entt_uvs(p, re), c)
}

/// Loading the first `n` entity models, from vertex count `first`.
pub open spec fn entt_sim(p: Payload, handles: Seq<usize>, first: int, n: nat) -> LevelSim<
    LevelEnttRefView,
>
    decreases n,
{
    if n == 0 {
        LevelSim { ok: true, err: None, count: first, refs: Seq::empty(), jobs: Seq::empty() }
    } else {
        let s = entt_sim(p, handles, first, (n - 1) as nat);
        if !s.ok || s.err is Some {
            s
        } else {
            let re = p.map_ref_ents@[n - 1];
            let frames = entt_frames(p, re);
            let uvs = entt_uvs(p, re);
            if !entt_ok(p, handles, re, s.count) {
                LevelSim { ok: false, ..s }
            } else {
                match pack_result(frames, uvs, s.count) {
                    Err(msg) => LevelSim {
                        err: Some(msg),
                        jobs: s.jobs + pack_jobs(frames, uvs),
                        ..s
                    },
                    Ok(h) => LevelSim {
                        ok: true,
                        err: None,
                        count: pack_vertex_count(frames, uvs, s.count),
                        refs: s.refs.push(
                            LevelEnttRefView {
                                index: re.name as usize,
                                texture_handle: handles[re.texture as int],
                                frame_handles: h,
                            },
                        ),
                        jobs: s.jobs + pack_jobs(frames, uvs),
                    },
                }
            }
        }
    }
}

/// The transform of a placed decoration lies in the float table.
pub open spec fn ins_decor_ok(p: Payload, di: MapInsDecor) -> bool {
    &&& float_run_ok(p.floats@.len() as int, di.location, 3)
    &&& float_run_ok(p.floats@.len() as int, di.rotation, 4)
    &&& float_run_ok(p.floats@.len() as int, di.scale, 3)
}

/// The transform of a placed entity lies in the float table.
pub open spec fn ins_entt_ok(p: Payload, ei: MapInsEntity) -> bool {
    &&& float_run_ok(p.floats@.len() as int, ei.location, 3)
    &&& float_run_ok(p.floats@.len() as int, ei.rotation, 4)
    &&& float_run_ok(p.floats@.len() as int, ei.scale, 3)
}

/// The loaded form of a placed decoration.
pub open spec fn decor_view(p: Payload, di: MapInsDecor) -> Decor {
    Decor {
        ref_id: di.index as usize,
        location: vec3_at(p.floats@, di.location),
        rotation: quat_at(p.floats@, di.rotation),
        scale: vec3_at(p.floats@, di.scale),
    }
}

/// The loaded form of a placed entity.
pub open spec fn level_entity_view(p: Payload, ei: MapInsEntity) -> LevelEntityView {
    LevelEntityView {
        index: ei.index as usize,
        has_ref: ei.has_ref,
        params: ei.params@,
        location: vec3_at(p.floats@, ei.location),
        rotation: quat_at(p.floats@, ei.rotation),
        scale: vec3_at(p.floats@, ei.scale),
    }
}

/// The decoration models of `p` loaded from vertex count `first`.
pub open spec fn all_decor(p: Payload, handles: Seq<usize>, first: int) -> LevelSim<
    LoadedDecorReference,
> {
    decor_sim(p, handles, first, p.map_ref_decs@.len())
}

/// The entity models of `p` loaded after its decoration models.
pub open spec fn all_entt(p: Payload, handles: Seq<usize>, first: int) -> LevelSim<
    LevelEnttRefView,
> {
    entt_sim(p, handles, all_decor(p, handles, first).count, p.map_ref_ents@.len())
}

/// Loading `p` as a level does not panic.
pub open spec fn level_load_ok(p: Payload, handles: Seq<usize>, first: int) -> bool {
    let d = all_decor(p, handles, first);
    let e = all_entt(p, handles, first);
    &&& d.ok
    &&& d.err is None ==> {
        &&& forall|k: int|
            0 <= k < p.map_ins_decs@.len() ==> ins_decor_ok(p, #[trigger] p.map_ins_decs@[k])
        &&& e.ok
        &&& e.err is None ==> forall|k: int|
            0 <= k < p.map_ins_ents@.len() ==> ins_entt_ok(p, #[trigger] p.map_ins_ents@[k])
    }
}

/// The error that stops loading `p` as a level, if one does.
pub open spec fn level_load_error(p: Payload, handles: Seq<usize>, first: int) -> Option<Seq<char>> {
    let d = all_decor(p, handles, first);
    if d.err is Some {
        d.err
    } else {
        all_entt(p, handles, first).err
    }
}

/// The triangles that loading `p` as a level hands to the renderer.
pub open spec fn level_load_jobs(p: Payload, handles: Seq<usize>, first: int) -> Seq<TriangleJob> {
    let d = all_decor(p, handles, first);
    if d.err is Some {
        d.jobs
    } else {
        d.jobs + all_entt(p, handles, first).jobs
    }
}

/// Whether a loaded level is what loading `p` gives.
pub open spec fn level_loaded_from(l: Level, p: Payload, handles: Seq<usize>, first: int) -> bool {
    let d = all_decor(p, handles, first);
    let e = all_entt(p, handles, first);
    &&& strings_view(l.payload.drn_data@) == strings_view(p.drn_data@)
    &&& strings_view(l.payload.ern_data@) == strings_view(p.ern_data@)
    &&& strings_view(l.payload.kvs_data@) == strings_view(p.kvs_data@)
    &&& strings_view(l.payload.fn_data@) == strings_view(p.fn_data@)
    &&& l.img_handles@ == handles
    &&& l.ref_decor@ == d.refs
    &&& l.ref_entities@.len() == e.refs.len()
    &&& forall|i: int| 0 <= i < e.refs.len() ==> (#[trigger] l.ref_entities@[i])@ == e.refs[i]
    &&& l.map_decor@ == Seq::new(p.map_ins_decs@.len(), |k: int| decor_view(p, p.map_ins_decs@[k]))
    &&& l.map_entities@.len() == p.map_ins_ents@.len()
    &&& forall|k: int|
        0 <= k < p.map_ins_ents@.len() ==> (#[trigger] l.map_entities@[k])@ == level_entity_view(
            p,
            p.map_ins_ents@[k],
        )
}

proof fn lemma_decor_sim_stops(p: Payload, handles: Seq<usize>, first: int, i: nat, n: nat)
    requires
        i <= n,
        !decor_sim(p, handles, first, i).ok || decor_sim(p, handles, first, i).err is Some,
    ensures
        decor_sim(p, handles, first, n) == decor_sim(p, handles, first, i),
    decreases n - i,
{
    if i < n {
        lemma_decor_sim_stops(p, handles, first, i, (n - 1) as nat);
    }
}

proof fn lemma_entt_sim_stops(p: Payload, handles: Seq<usize>, first: int, i: nat, n: nat)
    requires
        i <= n,
        !entt_sim(p, handles, first, i).ok || entt_sim(p, handles, first, i).err is Some,
    ensures
        entt_sim(p, handles, first, n) == entt_sim(p, handles, first, i),
    decreases n - i,
{
    if i < n {
        lemma_entt_sim_stops(p, handles, first, i, (n - 1) as nat);
    }
}

/// Loads the decoration models; on success gives them and the vertex count
/// after them.
fn load_decor_refs(
    payload: &Payload,
    img_handles: &Vec<usize>,
    first_vertex: usize,
    jobs: &mut Vec<TriangleJob>,
) -> (res: Result<(Vec<LoadedDecorReference>, usize), NUError>)
    requires
        all_decor(*payload, img_handles@, first_vertex as int).ok,
    ensures
        ({
            let d = all_decor(*payload, img_handles@, first_vertex as int);
            &&& final(jobs)@ == old(jobs)@ + d.jobs
            &&& d.err is Some ==> res is Err && is_misc_error(res->Err_0, d.err->0)
            &&& d.err is None ==> res is Ok && res->Ok_0.0@ == d.refs && res->Ok_0.1 == d.count
        }),
{
    let ghost p = *payload;
    let ghost handles = img_handles@;
    let ghost first = first_vertex as int;
    let ghost start_jobs = jobs@;
    let n = payload.map_ref_decs.len();
    let mut refs: Vec<LoadedDecorReference> = Vec::new();
    let mut count: usize = first_vertex;
    let mut i: usize = 0;
    while i < n
        invariant
            p == *payload,
            handles == img_handles@,
            first == first_vertex as int,
            n == p.map_ref_decs@.len(),
            i <= n,
            decor_sim(p, handles, first, n as nat).ok,
            decor_sim(p, handles, first, i as nat).ok,
            decor_sim(p, handles, first, i as nat).err is None,
            decor_sim(p, handles, first, i as nat).count == count,
            refs@ == decor_sim(p, handles, first, i as nat).refs,
            jobs@ == start_jobs + decor_sim(p, handles, first, i as nat).jobs,
            start_jobs == old(jobs)@,
        decreases n - i,
    {
        proof {
            if !decor_sim(p, handles, first, (i + 1) as nat).ok {
                lemma_decor_sim_stops(p, handles, first, (i + 1) as nat, n as nat);
            }
        }
        let rd = &payload.map_ref_decs[i];
        assert(*rd == p.map_ref_decs@[i as int]);
        let ghost before = decor_sim(p, handles, first, i as nat);
        let ghost frames = decor_frames(p, *rd);
        let ghost uvs = decor_uvs(p, *rd);
        let verts = gather_vec3(&payload.floats, &rd.vertices);
        let uv = gather_vec2(&payload.floats, &rd.uvs);
        let mut frames_vec: Vec<Vec<Vec3Bits>> = Vec::new();
        frames_vec.push(verts);
        assert(frames_view(frames_vec@) =~= frames);
        let packed = pack_floats(frames_vec, uv, count, jobs);
        match packed {
            Err(e) => {
                proof {
                    let after = decor_sim(p, handles, first, (i + 1) as nat);
                    assert(after.err == Some(pack_result(frames, uvs, count as int)->Err_0));
                    assert(jobs@ =~= start_jobs + after.jobs);
                    lemma_decor_sim_stops(p, handles, first, (i + 1) as nat, n as nat);
                }
                return Err(e);
            },
            Ok(pf) => {
                proof {
                    assert(frames.len() == 1);
                    assert(pack_result(frames, uvs, count as int) is Ok);
                    assert(frames_match(frames, uvs));
                    assert(uvs.len() == rd.uvs@.len());
                    assert(count + frames.len() * uvs.len() <= usize::MAX);
                    assert(frames.len() * uvs.len() == uvs.len()) by (nonlinear_arith)
                        requires
                            frames.len() == 1,
                    ;
                    assert(pack_vertex_count(frames, uvs, count as int) == count + uvs.len());
                }
                let r = LoadedDecorReference {
                    index: rd.name as usize,
                    texture_handle: img_handles[rd.texture as usize],
                    frame_handle: pf[0],
                };
                refs.push(r);
                count = count + rd.uvs.len();
                proof {
                    let after = decor_sim(p, handles, first, (i + 1) as nat);
                    assert(jobs@ =~= start_jobs + after.jobs);
                    assert(refs@ =~= after.refs);
                }
                i = i + 1;
            },
        }
    }
    Ok((refs, count))
}

/// Loads the entity models from vertex count `start`.
fn load_entt_refs(
    payload: &Payload,
    img_handles: &Vec<usize>,
    start: usize,
    jobs: &mut Vec<TriangleJob>,
) -> (res: Result<Vec<LoadedEnttReference>, NUError>)
    requires
        entt_sim(*payload, img_handles@, start as int, payload.map_ref_ents@.len()).ok,
    ensures
        ({
            let e = entt_sim(*payload, img_handles@, start as int, payload.map_ref_ents@.len());
            &&& final(jobs)@ == old(jobs)@ + e.jobs
            &&& e.err is Some ==> res is Err && is_misc_error(res->Err_0, e.err->0)
            &&& e.err is None ==> res is Ok && res->Ok_0@.len() == e.refs.len() && forall|i: int|
                0 <= i < e.refs.len() ==> (#[trigger] res->Ok_0@[i])@ == e.refs[i]
        }),
{
    let ghost p = *payload;
    let ghost handles = img_handles@;
    let ghost first = start as int;
    let ghost start_jobs = jobs@;
    let n = payload.map_ref_ents.len();
    let mut refs: Vec<LoadedEnttReference> = Vec::new();
    let mut count: usize = start;
    let mut i: usize = 0;
    while i < n
        invariant
            p == *payload,
            handles == img_handles@,
            first == start as int,
            n == p.map_ref_ents@.len(),
            i <= n,
            entt_sim(p, handles, first, n as nat).ok,
            entt_sim(p, handles, first, i as nat).ok,
            entt_sim(p, handles, first, i as nat).err is None,
            entt_sim(p, handles, first, i as nat).count == count,
            refs@.len() == entt_sim(p, handles, first, i as nat).refs.len(),
            forall|k: int|
                0 <= k < refs@.len() ==> (#[trigger] refs@[k])@ == entt_sim(
                    p,
                    handles,
                    first,
                    i as nat,
                ).refs[k],
            jobs@ == start_jobs + entt_sim(p, handles, first, i as nat).jobs,
            start_jobs == old(jobs)@,
        decreases n - i,
    {
        proof {
            if !entt_sim(p, handles, first, (i + 1) as nat).ok {
                lemma_entt_sim_stops(p, handles, first, (i + 1) as nat, n as nat);
            }
        }
        let re = &payload.map_ref_ents[i];
        assert(*re == p.map_ref_ents@[i as int]);
        let ghost frames = entt_frames(p, *re);
        let ghost uvs = entt_uvs(p, *re);
        let mut verts: Vec<Vec<Vec3Bits>> = Vec::new();
        let mut f: usize = 0;
        while f < re.vertices.len()
            invariant
                entt_ok(p, handles, *re, count as int),
                p == *payload,
                f <= re.vertices@.len(),
                verts@.len() == f,
                frames_view(verts@) =~= frames.take(f as int),
                frames == entt_frames(p, *re),
            decreases re.vertices.len() - f,
        {
            let frame = gather_vec3(&payload.floats, &re.vertices[f]);
            assert(frame@ == frames[f as int]);
            verts.push(frame);
            assert(frames_view(verts@)[f as int] == frame@);
            f = f + 1;
        }
        assert(frames_view(verts@) =~= frames);
        let uv = gather_vec2(&payload.floats, &re.uvs);
        let texture_handle = img_handles[re.texture as usize];
        let packed = pack_floats(verts, uv, count, jobs);
        match packed {
            Err(e) => {
                proof {
                    let after = entt_sim(p, handles, first, (i + 1) as nat);
                    assert(after.err == Some(pack_result(frames, uvs, count as int)->Err_0));
                    assert(jobs@ =~= start_jobs + after.jobs);
                    lemma_entt_sim_stops(p, handles, first, (i + 1) as nat, n as nat);
                }
                return Err(e);
            },
            Ok(fh) => {
                proof {
                    assert(count + frames.len() * uvs.len() <= usize::MAX);
                    assert(fh@ == pack_result(frames, uvs, count as int)->Ok_0);
                }
                let ghost before_len = refs@.len();
                let r = LoadedEnttReference {
                    index: re.name as usize,
                    texture_handle,
                    frame_handles: fh,
                };
                count = count + re.vertices.len() * re.uvs.len();
                let ghost old_refs = refs@;
                refs.push(r);
                proof {
                    let after = entt_sim(p, handles, first, (i + 1) as nat);
                    assert(jobs@ =~= start_jobs + after.jobs);
                    assert(refs@[before_len as int]@ == after.refs[before_len as int]);
                    assert forall|k: int| 0 <= k < refs@.len() implies (#[trigger] refs@[k])@
                        == after.refs[k] by {
                        if k < before_len {
                            assert(refs@[k] == old_refs[k]);
                        }
                    }
                }
                i = i + 1;
            },
        }
    }
    Ok(refs)
}

/// Loads a compiled map as a level: the decoration models in order, then
/// the placed decorations, then the entity models, then the placed entities;
/// every model's frames go to the renderer after those of the models before
/// it. Loading stops at the first model whose frames and texture coordinates
/// differ in length, or that has no frame, with the triangles of the models
/// before it already handed over.
pub fn load_level(
    payload: Payload,
    img_handles: Vec<usize>,
    first_vertex: usize,
    jobs: &mut Vec<TriangleJob>,
) -> (res: Result<Level, NUError>)
    requires
        level_load_ok(payload, img_handles@, first_vertex as int),
    ensures
        final(jobs)@ == old(jobs)@ + level_load_jobs(payload, img_handles@, first_vertex as int),
        level_load_error(payload, img_handles@, first_vertex as int) is Some ==> res is Err
            && is_misc_error(res->Err_0, level_load_error(payload, img_handles@, first_vertex as int)->0),
        level_load_error(payload, img_handles@, first_vertex as int) is None ==> res is Ok
            && level_loaded_from(res->Ok_0, payload, img_handles@, first_vertex as int),
{
    let ghost p = payload;
    let ghost handles = img_handles@;
    let ghost start_jobs = jobs@;
    let (ref_decor, count) = match load_decor_refs(&payload, &img_handles, first_vertex, jobs) {
        Ok(r) => r,
        Err(e) => {
            return Err(e);
        },
    };
    let m = payload.map_ins_decs.len();
    let mut map_decor: Vec<Decor> = Vec::new();
    let mut k: usize = 0;
    while k < m
        invariant
            p == payload,
            m == p.map_ins_decs@.len(),
            k <= m,
            all_decor(p, handles, first_vertex as int).err is None,
            level_load_ok(p, handles, first_vertex as int),
            map_decor@ =~= Seq::new(m as nat, |j: int| decor_view(p, p.map_ins_decs@[j])).take(
                k as int,
            ),
        decreases m - k,
    {
        let di = &payload.map_ins_decs[k];
        assert(ins_decor_ok(p, p.map_ins_decs@[k as int]));
        let d = Decor {
            ref_id: di.index as usize,
            location: read_vec3(&payload.floats, di.location),
            rotation: read_quat(&payload.floats, di.rotation),
            scale: read_vec3(&payload.floats, di.scale),
        };
        map_decor.push(d);
        k = k + 1;
    }
    assert(map_decor@ =~= Seq::new(m as nat, |j: int| decor_view(p, p.map_ins_decs@[j])));
    let ref_entts = match load_entt_refs(&payload, &img_handles, count, jobs) {
        Ok(r) => r,
        Err(e) => {
            assert(jobs@ =~= start_jobs + level_load_jobs(p, handles, first_vertex as int));
            return Err(e);
        },
    };
    assert(jobs@ =~= start_jobs + level_load_jobs(p, handles, first_vertex as int));
    let n = payload.map_ins_ents.len();
    let mut map_entts: Vec<Entity> = Vec::new();
    let mut k: usize = 0;
    while k < n
        invariant
            p == payload,
            n == p.map_ins_ents@.len(),
            k <= n,
            all_decor(p, handles, first_vertex as int).err is None,
            all_entt(p, handles, first_vertex as int).err is None,
            level_load_ok(p, handles, first_vertex as int),
            map_entts@.len() == k,
            forall|j: int|
                0 <= j < k ==> (#[trigger] map_entts@[j])@ == level_entity_view(
                    p,
                    p.map_ins_ents@[j],
                ),
        decreases n - k,
    {
        let ei = &payload.map_ins_ents[k];
        assert(ins_entt_ok(p, p.map_ins_ents@[k as int]));
        let e = Entity {
            index: ei.index as usize,
            has_ref: ei.has_ref,
            params: copy_items(&ei.params),
            location: read_vec3(&payload.floats, ei.location),
            rotation: read_quat(&payload.floats, ei.rotation),
            scale: read_vec3(&payload.floats, ei.scale),
        };
        map_entts.push(e);
        k = k + 1;
    }
    let level_payload = LevelPayload {
        drn_data: clone_strings(&payload.drn_data),
        ern_data: clone_strings(&payload.ern_data),
        kvs_data: clone_strings(&payload.kvs_data),
        fn_data: clone_strings(&payload.fn_data),
    };
    Ok(
        Level {
            payload: level_payload,
            img_handles,
            map_entities: map_entts,
            ref_entities: ref_entts,
            map_decor,
            ref_decor,
        },
    )
}

/// When the decoration models load without error, the `k`-th loaded model
/// is the `k`-th compiled one: its name, the handle of its texture, and a
/// frame handle no lower than the vertex count loading started from.
pub proof fn lemma_decor_refs_follow_models(p: Payload, handles: Seq<usize>, first: int, n: nat)
    requires
        n <= p.map_ref_decs@.len(),
        decor_sim(p, handles, first, n).ok,
        decor_sim(p, handles, first, n).err is None,
        first >= 0,
    ensures
        decor_sim(p, handles, first, n).refs.len() == n,
        decor_sim(p, handles, first, n).count >= first,
        forall|k: int|
            0 <= k < n ==> {
                let r = #[trigger] decor_sim(p, handles, first, n).refs[k];
                &&& r.index == p.map_ref_decs@[k].name as usize
                &&& r.texture_handle == handles[p.map_ref_decs@[k].texture as int]
                &&& r.frame_handle >= first
            },
    decreases n,
{
    if n > 0 {
        let s0 = decor_sim(p, handles, first, (n - 1) as nat);
        assert(s0.ok && s0.err is None);
        lemma_decor_refs_follow_models(p, handles, first, (n - 1) as nat);
        let rd = p.map_ref_decs@[n - 1];
        let frames = decor_frames(p, rd);
        let uvs = decor_uvs(p, rd);
        let h = pack_result(frames, uvs, s0.count)->Ok_0;
        assert(h[0] == (s0.count + 0 * uvs.len()) as usize);
        assert(0 * uvs.len() == 0);
        assert(pack_vertex_count(frames, uvs, s0.count) >= s0.count) by {
            assert(frames.len() * uvs.len() >= 0) by (nonlinear_arith);
        }
    }
}

/// When the entity models load without error, the `k`-th loaded model is
/// the `k`-th compiled one: its name, the handle of its texture, and one
/// frame handle per frame.
pub proof fn lemma_entt_refs_follow_models(p: Payload, handles: Seq<usize>, first: int, n: nat)
    requires
        n <= p.map_ref_ents@.len(),
        entt_sim(p, handles, first, n).ok,
        entt_sim(p, handles, first, n).err is None,
    ensures
        entt_sim(p, handles, first, n).refs.len() == n,
        forall|k: int|
            0 <= k < n ==> {
                let r = #[trigger] entt_sim(p, handles, first, n).refs[k];
                &&& r.index == p.map_ref_ents@[k].name as usize
                &&& r.texture_handle == handles[p.map_ref_ents@[k].texture as int]
                &&& r.frame_handles.len() == p.map_ref_ents@[k].vertices@.len()
            },
    decreases n,
{
    if n > 0 {
        let s0 = entt_sim(p, handles, first, (n - 1) as nat);
        assert(s0.ok && s0.err is None);
        lemma_entt_refs_follow_models(p, handles, first, (n - 1) as nat);
    }
}

} // verus!
