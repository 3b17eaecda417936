//! Loading a compiled map into the form the game plays it in: the name
//! tables it keeps, the entity models with their frames placed in the
//! renderer's vertex buffer, and the placed entities with their transforms.
//!
//! The renderer's textures are made by the application before loading; their
//! handles come in as `img_handles`, one per image of the map. The triangles
//! that loading hands to the renderer are appended to `jobs`, in the order in
//! which the renderer stores them, and `first_vertex` is the renderer's
//! vertex count before loading.
use vstd::prelude::*;

use crate::error::{is_misc_error, NUError};
use crate::mesh::{
    frames_match, frames_view, pack_floats, pack_jobs, pack_ok, pack_result, pack_vertex_count,
    TriangleJob,
};
use crate::payload::{
    float_run_ok, float_runs_ok, gather_vec2, gather_vec2_spec, gather_vec3, gather_vec3_spec,
    quat_at, read_quat, read_vec3, vec3_at, MapInsEntity, MapRefEntity, Payload, QuatBits,
    Vec2Bits, Vec3Bits,
};
use crate::big_buffer::strings_view;

verus! {

/// The name tables a loaded map keeps: entity names, parameter strings and
/// frame names.
pub struct MapPayload {
    pub ern_data: Vec<String>,
    pub kvs_data: Vec<String>,
    pub fn_data: Vec<String>,
}

/// A loaded map.
pub struct GameMap {
    pub payload: MapPayload,
    pub map_entities: Vec<Entity>,
    pub ref_entities: Vec<LoadedEnttReference>,
}

/// A placed entity: its model, whether it has one, its parameters, and its
/// position, rotation and scale as float bit patterns.
pub struct Entity {
    pub ref_id: usize,
    pub has_ref: bool,
    pub params: Vec<u32>,
    pub location: Vec3Bits,
    pub rotation: QuatBits,
    pub scale: Vec3Bits,
}

/// A triangle of a collision mesh.
#[derive(Debug, Clone, Copy, PartialEq, Eq)]
pub struct MeshTriangle {
    pub a: Vec3Bits,
    pub b: Vec3Bits,
    pub c: Vec3Bits,
}

/// A loaded entity model: its name (an index into the entity names), its
/// texture, its frame names, the vertex-buffer position of each frame, its
/// collision mesh (for models that are decoration) and the number of
/// vertices of a frame.
pub struct LoadedEnttReference {
    pub index: usize,
    pub texture_handle: usize,
    pub frame_names: Vec<String>,
    pub frame_handles: Vec<usize>,
    pub mesh: Vec<MeshTriangle>,
    pub num_verts: usize,
}

/// The abstract value of a placed entity.
pub struct EntityView {
    pub ref_id: usize,
    pub has_ref: bool,
    pub params: Seq<u32>,
    pub location: Vec3Bits,
    pub rotation: QuatBits,
    pub scale: Vec3Bits,
}

/// The abstract value of a loaded entity model.
pub struct EnttRefView {
    pub index: usize,
    pub texture_handle: usize,
    pub frame_names: Seq<Seq<char>>,
    pub frame_handles: Seq<usize>,
    pub mesh: Seq<MeshTriangle>,
    pub num_verts: usize,
}

impl View for Entity {
    type V = EntityView;

    open spec fn view(&self) -> EntityView {
        EntityView {
            ref_id: self.ref_id,
            has_ref: self.has_ref,
            params: self.params@,
            location: self.location,
            rotation: self.rotation,
            scale: self.scale,
        }
    }
}

impl View for LoadedEnttReference {
    type V = EnttRefView;

    open spec fn view(&self) -> EnttRefView {
        EnttRefView {
            index: self.index,
            texture_handle: self.texture_handle,
            frame_names: strings_view(self.frame_names@),
            frame_handles: self.frame_handles@,
            mesh: self.mesh@,
            num_verts: self.num_verts,
        }
    }
}

impl Clone for LoadedEnttReference {
    fn clone(&self) -> (res: Self)
        ensures
            res@ == self@,
    {
        LoadedEnttReference {
            index: self.index,
            texture_handle: self.texture_handle,
            frame_names: clone_strings(&self.frame_names),
            frame_handles: copy_items(&self.frame_handles),
            mesh: copy_items(&self.mesh),
            num_verts: self.num_verts,
        }
    }
}

/// The frames of an entity model, read from the float table.
pub open spec fn ref_frames(p: Payload, re: MapRefEntity) -> Seq<Seq<Vec3Bits>> {
    Seq::new(re.vertices@.len(), |f: int| gather_vec3_spec(p.floats@, re.vertices@[f]@))
}

/// The texture coordinates of an entity model, read from the float table.
pub open spec fn ref_uvs(p: Payload, re: MapRefEntity) -> Seq<Vec2Bits> {
    gather_vec2_spec(p.floats@, re.uvs@)
}

/// The collision mesh of a frame: its vertices three by three.
pub open spec fn mesh_of(v: Seq<Vec3Bits>) -> Seq<MeshTriangle> {
    Seq::new(
        (v.len() / 3) as nat,
        |i: int| MeshTriangle { a: v[3 * i], b: v[3 * i + 1], c: v[3 * i + 2] },
    )
}

/// Loading an entity model at vertex count `c` does not panic: its indices
/// are in range, it has a frame, and packing its frames does not panic.
pub open spec fn ref_ok(p: Payload, handles: Seq<usize>, re: MapRefEntity, c: int) -> bool {
    &&& forall|f: int|
        0 <= f < re.vertices@.len() ==> float_runs_ok(p.floats@, (#[trigger] re.vertices@[f])@, 3)
    &&& re.vertices@.len() > 0
    &&& float_runs_ok(p.floats@, re.uvs@, 2)
    &&& (re.texture as int) < handles.len()
    &&& forall|k: int|
        0 <= k < re.frame_names@.len() ==> (#[trigger] re.frame_names@[k] as int)
            < p.fn_data@.len()
    &&& pack_ok(ref_frames(p, re), ref_uvs(p, re), c)
}

/// The loaded form of an entity model whose frames start at vertex `c`,
/// given its frame handles.
pub open spec fn ref_view(p: Payload, handles: Seq<usize>, re: MapRefEntity, h: Seq<usize>) -> EnttRefView {
    EnttRefView {
        index: re.name as usize,
        texture_handle: handles[re.texture as int],
        frame_names: Seq::new(re.frame_names@.len(), |k: int| p.fn_data@[re.frame_names@[k] as int]@),
        frame_handles: h,
        mesh: if re.is_decor {
            mesh_of(ref_frames(p, re)[0])
        } else {
            Seq::empty()
        },
        num_verts: ref_frames(p, re)[0].len() as usize,
    }
}

/// The state of loading after the first `n` entity models: whether nothing
/// panicked, the error that stopped loading if one did, the renderer's vertex
/// count, the models loaded and the triangles handed to the renderer.
pub struct RefsSim {
    pub ok: bool,
    pub err: Option<Seq<char>>,
    pub count: int,
    pub refs: Seq<EnttRefView>,
    pub jobs: Seq<TriangleJob>,
}

/// Loading the first `n` entity models of `p`, one after the other, with the
/// renderer's vertex count at `first` before the first.
pub open spec fn refs_sim(p: Payload, handles: Seq<usize>, first: int, n: nat) -> RefsSim
    decreases n,
{
    if n == 0 {
        RefsSim { ok: true, err: None, count: first, refs: Seq::empty(), jobs: Seq::empty() }
    } else {
        let s = refs_sim(p, handles, first, (n - 1) as nat);
        if !s.ok || s.err is Some {
            s
        } else {
            let re = p.map_ref_ents@[n - 1];
            let frames = ref_frames(p, re);
            let uvs = ref_uvs(p, re);
            if !ref_ok(p, handles, re, s.count) {
                RefsSim { ok: false, ..s }
            } else {
                match pack_result(frames, uvs, s.count) {
                    Err(msg) => RefsSim { err: Some(msg), jobs: s.jobs + pack_jobs(frames, uvs), ..s },
                    Ok(h) => RefsSim {
                        ok: true,
                        err: None,
                        count: pack_vertex_count(frames, uvs, s.count),
                        refs: s.refs.push(ref_view(p, handles, re, h)),
                        jobs: s.jobs + pack_jobs(frames, uvs),
                    },
                }
            }
        }
    }
}

/// The loaded form of a placed entity.
pub open spec fn entity_view(p: Payload, ei: MapInsEntity) -> EntityView {
    EntityView {
        ref_id: ei.index as usize,
        has_ref: ei.has_ref,
        params: ei.params@,
        location: vec3_at(p.floats@, ei.location),
        rotation: quat_at(p.floats@, ei.rotation),
        scale: vec3_at(p.floats@, ei.scale),
    }
}

/// The transform of a placed entity lies in the float table.
pub open spec fn entity_ok(p: Payload, ei: MapInsEntity) -> bool {
    &&& float_run_ok(p.floats@.len() as int, ei.location, 3)
    &&& float_run_ok(p.floats@.len() as int, ei.rotation, 4)
    &&& float_run_ok(p.floats@.len() as int, ei.scale, 3)
}

/// Loading `p` does not panic: the entity models load one after the other
/// without panicking until one fails, and if none fails, every placed
/// entity's transform lies in the float table.
pub open spec fn load_ok(p: Payload, handles: Seq<usize>, first: int) -> bool {
    let s = refs_sim(p, handles, first, p.map_ref_ents@.len());
    &&& s.ok
    &&& s.err is None ==> forall|k: int|
        0 <= k < p.map_ins_ents@.len() ==> entity_ok(p, #[trigger] p.map_ins_ents@[k])
}

/// Whether a loaded map is what loading `p` gives.
pub open spec fn map_loaded_from(m: GameMap, p: Payload, handles: Seq<usize>, first: int) -> bool {
    let s = refs_sim(p, handles, first, p.map_ref_ents@.len());
    &&& strings_view(m.payload.ern_data@) == strings_view(p.ern_data@)
    &&& strings_view(m.payload.kvs_data@) == strings_view(p.kvs_data@)
    &&& strings_view(m.payload.fn_data@) == strings_view(p.fn_data@)
    &&& m.ref_entities@.len() == s.refs.len()
    &&& forall|i: int| 0 <= i < s.refs.len() ==> (#[trigger] m.ref_entities@[i])@ == s.refs[i]
    &&& m.map_entities@.len() == p.map_ins_ents@.len()
    &&& forall|k: int|
        0 <= k < p.map_ins_ents@.len() ==> (#[trigger] m.map_entities@[k])@ == entity_view(
            p,
            p.map_ins_ents@[k],
        )
}

pub(crate) fn clone_strings(v: &Vec<String>) -> (res: Vec<String>)
    ensures
        strings_view(res@) == strings_view(v@),
{
    let mut out: Vec<String> = Vec::new();
    let mut i: usize = 0;
    while i < v.len()
        invariant
            i <= v@.len(),
            out@.len() == i,
            strings_view(out@) =~= strings_view(v@).take(i as int),
        decreases v.len() - i,
    {
        let c = v[i].clone();
        out.push(c);
        assert(strings_view(out@)[i as int] == v@[i as int]@);
        i = i + 1;
    }
    assert(strings_view(v@).take(v@.len() as int) =~= strings_view(v@));
    out
}

pub(crate) fn copy_items<T: Copy>(v: &Vec<T>) -> (res: Vec<T>)
    ensures
        res@ == v@,
{
    let mut out: Vec<T> = Vec::new();
    let mut i: usize = 0;
    while i < v.len()
        invariant
            i <= v@.len(),
            out@ =~= v@.take(i as int),
        decreases v.len() - i,
    {
        out.push(v[i]);
        i = i + 1;
    }
    assert(v@.take(v@.len() as int) =~= v@);
    out
}

/// Loads one entity model at vertex count `count`.
fn load_ref(
    p: &Payload,
    img_handles: &Vec<usize>,
    re: &MapRefEntity,
    count: usize,
    jobs: &mut Vec<TriangleJob>,
) -> (res: Result<LoadedEnttReference, NUError>)
    requires
        ref_ok(*p, img_handles@, *re, count as int),
    ensures
        match pack_result(ref_frames(*p, *re), ref_uvs(*p, *re), count as int) {
            Ok(h) => res is Ok && res->Ok_0@ == ref_view(*p, img_handles@, *re, h),
            Err(msg) => res is Err && is_misc_error(res->Err_0, msg),
        },
        final(jobs)@ == old(jobs)@ + pack_jobs(ref_frames(*p, *re), ref_uvs(*p, *re)),
{
    let mut verts: Vec<Vec<Vec3Bits>> = Vec::new();
    let mut f: usize = 0;
    while f < re.vertices.len()
        invariant
            ref_ok(*p, img_handles@, *re, count as int),
            f <= re.vertices@.len(),
            verts@.len() == f,
            frames_view(verts@) =~= ref_frames(*p, *re).take(f as int),
        decreases re.vertices.len() - f,
    {
        let frame = gather_vec3(&p.floats, &re.vertices[f]);
        assert(frame@ == ref_frames(*p, *re)[f as int]);
        verts.push(frame);
        assert(frames_view(verts@)[f as int] == frame@);
        f = f + 1;
    }
    assert(frames_view(verts@) =~= ref_frames(*p, *re));
    let vlen = verts[0].len();
    let uvs = gather_vec2(&p.floats, &re.uvs);
    let mut mesh: Vec<MeshTriangle> = Vec::new();
    if re.is_decor {
        let l0 = verts[0].len();
        let n_verts = l0 / 3;
        let mut i: usize = 0;
        let mut j: usize = 0;
        while i < n_verts
            invariant
                verts@.len() > 0,
                n_verts == verts@[0]@.len() / 3,
                l0 == verts@[0]@.len(),
                i <= n_verts,
                j == 3 * i,
                mesh@ =~= mesh_of(verts@[0]@).take(i as int),
            decreases n_verts - i,
        {
            assert(j + 2 < verts@[0]@.len()) by (nonlinear_arith)
                requires
                    j == 3 * i,
                    i < n_verts,
                    n_verts == verts@[0]@.len() / 3,
            ;
            let v1 = verts[0][j];
            let v2 = verts[0][j + 1];
            let v3 = verts[0][j + 2];
            mesh.push(MeshTriangle { a: v1, b: v2, c: v3 });
            i = i + 1;
            j = j + 3;
        }
        assert(mesh@ =~= mesh_of(verts@[0]@));
    }
    assert(verts@[0]@ == ref_frames(*p, *re)[0]);
    let mut frame_names: Vec<String> = Vec::new();
    let mut k: usize = 0;
    while k < re.frame_names.len()
        invariant
            ref_ok(*p, img_handles@, *re, count as int),
            k <= re.frame_names@.len(),
            frame_names@.len() == k,
            strings_view(frame_names@) =~= Seq::new(
                re.frame_names@.len(),
                |j: int| p.fn_data@[re.frame_names@[j] as int]@,
            ).take(k as int),
        decreases re.frame_names.len() - k,
    {
        let name = p.fn_data[re.frame_names[k] as usize].clone();
        frame_names.push(name);
        assert(strings_view(frame_names@)[k as int] == p.fn_data@[re.frame_names@[k as int] as int]@);
        k = k + 1;
    }
    let texture_handle = img_handles[re.texture as usize];
    let frame_handles = pack_floats(verts, uvs, count, jobs)?;
    let ghost names_view = Seq::new(
        re.frame_names@.len(),
        |j: int| p.fn_data@[re.frame_names@[j] as int]@,
    );
    assert(strings_view(frame_names@) =~= names_view);
    Ok(
        LoadedEnttReference {
            index: re.name as usize,
            texture_handle,
            frame_names,
            frame_handles,
            num_verts: vlen,
            mesh,
        },
    )
}

/// Loads a placed entity.
fn load_entity(p: &Payload, ei: &MapInsEntity) -> (res: Entity)
    requires
        entity_ok(*p, *ei),
    ensures
        res@ == entity_view(*p, *ei),
{
    Entity {
        ref_id: ei.index as usize,
        has_ref: ei.has_ref,
        params: copy_items(&ei.params),
        location: read_vec3(&p.floats, ei.location),
        rotation: read_quat(&p.floats, ei.rotation),
        scale: read_vec3(&p.floats, ei.scale),
    }
}

/// Loads a compiled map: the entity models in order, each with its frames
/// handed to the renderer after those of the models before it, then the
/// placed entities. Loading stops at the first model whose frames and
/// texture coordinates differ in length, with the triangles of the models
/// before it already handed over.
pub fn load(
    payload: Payload,
    img_handles: &Vec<usize>,
    first_vertex: usize,
    jobs: &mut Vec<TriangleJob>,
) -> (res: Result<GameMap, NUError>)
    requires
        load_ok(payload, img_handles@, first_vertex as int),
    ensures
        ({
            let s = refs_sim(payload, img_handles@, first_vertex as int, payload.map_ref_ents@.len());
            &&& final(jobs)@ == old(jobs)@ + s.jobs
            &&& s.err is Some ==> res is Err && is_misc_error(res->Err_0, s.err->0)
            &&& s.err is None ==> res is Ok && map_loaded_from(
                res->Ok_0,
                payload,
                img_handles@,
                first_vertex as int,
            )
        }),
{
    let ghost p = payload;
    let ghost handles = img_handles@;
    let ghost start_jobs = jobs@;
    assert(start_jobs == old(jobs)@);
    let n = payload.map_ref_ents.len();
    let mut ref_entts: Vec<LoadedEnttReference> = Vec::new();
    let mut count: usize = first_vertex;
    let mut i: usize = 0;
    while i < n
        invariant
            p == payload,
            handles == img_handles@,
            n == p.map_ref_ents@.len(),
            i <= n,
            load_ok(p, handles, first_vertex as int),
            refs_sim(p, handles, first_vertex as int, i as nat).ok,
            refs_sim(p, handles, first_vertex as int, i as nat).err is None,
            refs_sim(p, handles, first_vertex as int, i as nat).count == count,
            ref_entts@.len() == refs_sim(p, handles, first_vertex as int, i as nat).refs.len(),
            forall|k: int|
                0 <= k < ref_entts@.len() ==> (#[trigger] ref_entts@[k])@ == refs_sim(
                    p,
                    handles,
                    first_vertex as int,
                    i as nat,
                ).refs[k],
            jobs@ == start_jobs + refs_sim(p, handles, first_vertex as int, i as nat).jobs,
            start_jobs == old(jobs)@,
        decreases n - i,
    {
        proof {
            if !refs_sim(p, handles, first_vertex as int, (i + 1) as nat).ok {
                lemma_refs_sim_stops(p, handles, first_vertex as int, (i + 1) as nat, n as nat);
            }
            assert(refs_sim(p, handles, first_vertex as int, (i + 1) as nat).ok);
        }
        let re = &payload.map_ref_ents[i];
        let ghost before = refs_sim(p, handles, first_vertex as int, i as nat);
        let ghost frames = ref_frames(p, *re);
        let ghost uvs = ref_uvs(p, *re);
        let loaded = load_ref(&payload, img_handles, re, count, jobs);
        match loaded {
            Err(e) => {
                proof {
                    assert(*re == p.map_ref_ents@[i as int]);
                    assert(pack_result(frames, uvs, count as int) is Err);
                    let after = refs_sim(p, handles, first_vertex as int, (i + 1) as nat);
                    assert(after.err == Some(pack_result(frames, uvs, count as int)->Err_0));
                    assert(after.jobs == before.jobs + pack_jobs(frames, uvs));
                    assert(jobs@ =~= start_jobs + after.jobs);
                    lemma_refs_sim_stops(p, handles, first_vertex as int, (i + 1) as nat, n as nat);
                }
                return Err(e);
            },
            Ok(r) => {
                proof {
                    lemma_pack_count(frames, uvs, count as int);
                }
                count = count + re.vertices.len() * re.uvs.len();
                ref_entts.push(r);
                i = i + 1;
            },
        }
    }
    let m = payload.map_ins_ents.len();
    let mut map_entts: Vec<Entity> = Vec::new();
    let mut k: usize = 0;
    while k < m
        invariant
            p == payload,
            m == p.map_ins_ents@.len(),
            k <= m,
            refs_sim(p, handles, first_vertex as int, p.map_ref_ents@.len()).err is None,
            load_ok(p, handles, first_vertex as int),
            map_entts@.len() == k,
            forall|j: int|
                0 <= j < k ==> (#[trigger] map_entts@[j])@ == entity_view(p, p.map_ins_ents@[j]),
        decreases m - k,
    {
        let e = load_entity(&payload, &payload.map_ins_ents[k]);
        map_entts.push(e);
        k = k + 1;
    }
    let map_payload = MapPayload {
        ern_data: clone_strings(&payload.ern_data),
        kvs_data: clone_strings(&payload.kvs_data),
        fn_data: clone_strings(&payload.fn_data),
    };
    Ok(GameMap { payload: map_payload, map_entities: map_entts, ref_entities: ref_entts })
}

/// Once loading has stopped, later models change nothing.
proof fn lemma_refs_sim_stops(p: Payload, handles: Seq<usize>, first: int, i: nat, n: nat)
    requires
        i <= n,
        !refs_sim(p, handles, first, i).ok || refs_sim(p, handles, first, i).err is Some,
    ensures
        refs_sim(p, handles, first, n) == refs_sim(p, handles, first, i),
    decreases n - i,
{
    if i < n {
        lemma_refs_sim_stops(p, handles, first, i, (n - 1) as nat);
    }
}

proof fn lemma_pack_count(
    frames: Seq<Seq<Vec3Bits>>,
    uvs: Seq<Vec2Bits>,
    count: int,
)
    requires
        pack_ok(frames, uvs, count),
        frames.len() > 0,
        pack_result(frames, uvs, count) is Ok,
    ensures
        pack_vertex_count(frames, uvs, count) == count + frames.len() * uvs.len(),
        count + frames.len() * uvs.len() <= usize::MAX,
{
}

/// Whether every index of `idx` starts `n` consecutive floats of a table
/// of `len` floats.
fn runs_ok(len: usize, idx: &Vec<u32>, n: u32, Ghost(floats): Ghost<Seq<u32>>) -> (res: bool)
    requires
        floats.len() == len,
        1 <= n <= 4,
    ensures
        res == float_runs_ok(floats, idx@, n as int),
{
    let mut k: usize = 0;
    while k < idx.len()
        invariant
            floats.len() == len,
            1 <= n <= 4,
            k <= idx@.len(),
            forall|j: int| 0 <= j < k ==> float_run_ok(len as int, #[trigger] idx@[j], n as int),
        decreases idx@.len() - k,
    {
        let i = idx[k];
        if (i as u64) + (n as u64) > (len as u64) || (i as u64) + (n as u64) - 1 > (u32::MAX as u64) {
            assert(!float_run_ok(len as int, idx@[k as int], n as int));
            return false;
        }
        k = k + 1;
    }
    true
}

/// Whether an entity model can be loaded at vertex count `count` without
/// panicking.
fn ref_check(p: &Payload, img_handles: &Vec<usize>, re: &MapRefEntity, count: usize) -> (res: bool)
    ensures
        res == ref_ok(*p, img_handles@, *re, count as int),
{
    let len = p.floats.len();
    let nf = re.vertices.len();
    let mut f: usize = 0;
    while f < nf
        invariant
            len == p.floats@.len(),
            nf == re.vertices@.len(),
            f <= nf,
            forall|g: int| 0 <= g < f ==> float_runs_ok(p.floats@, (#[trigger] re.vertices@[g])@, 3),
        decreases nf - f,
    {
        if !runs_ok(len, &re.vertices[f], 3, Ghost(p.floats@)) {
            return false;
        }
        f = f + 1;
    }
    if nf == 0 || !runs_ok(len, &re.uvs, 2, Ghost(p.floats@)) {
        return false;
    }
    if re.texture as usize >= img_handles.len() {
        return false;
    }
    let mut k: usize = 0;
    while k < re.frame_names.len()
        invariant
            k <= re.frame_names@.len(),
            forall|j: int| 0 <= j < k ==> (#[trigger] re.frame_names@[j] as int) < p.fn_data@.len(),
        decreases re.frame_names@.len() - k,
    {
        if re.frame_names[k] as usize >= p.fn_data.len() {
            return false;
        }
        k = k + 1;
    }
    let ghost frames = ref_frames(*p, *re);
    let ghost uvs = ref_uvs(*p, *re);
    let ulen = re.uvs.len();
    let mut matching = true;
    let mut g: usize = 0;
    while g < nf
        invariant
            nf == re.vertices@.len(),
            frames == ref_frames(*p, *re),
            uvs == ref_uvs(*p, *re),
            ulen == uvs.len(),
            g <= nf,
            frames.len() == nf,
            matching == forall|h: int| 0 <= h < g ==> (#[trigger] frames[h]).len() == uvs.len(),
        decreases nf - g,
    {
        assert(frames[g as int].len() == re.vertices@[g as int]@.len());
        if re.vertices[g].len() != ulen {
            matching = false;
        }
        g = g + 1;
    }
    assert(matching == frames_match(frames, uvs));
    if !matching {
        return true;
    }
    if ulen % 3 != 0 {
        return false;
    }
    proof {
        assert(nf * ulen <= u128::MAX - u64::MAX) by (nonlinear_arith)
            requires
                nf <= u64::MAX,
                ulen <= u64::MAX,
        ;
    }
    let total = (nf as u128) * (ulen as u128);
    (count as u128) + total <= (usize::MAX as u128)
}

/// Whether loading `payload` does not panic: the condition under which
/// `load` may be called.
pub fn load_check(payload: &Payload, img_handles: &Vec<usize>, first_vertex: usize) -> (res: bool)
    ensures
        res == load_ok(*payload, img_handles@, first_vertex as int),
{
    let ghost p = *payload;
    let ghost handles = img_handles@;
    let ghost first = first_vertex as int;
    let n = payload.map_ref_ents.len();
    let mut count: usize = first_vertex;
    let mut i: usize = 0;
    while i < n
        invariant
            p == *payload,
            handles == img_handles@,
            first == first_vertex as int,
            n == p.map_ref_ents@.len(),
            i <= n,
            refs_sim(p, handles, first, i as nat).ok,
            refs_sim(p, handles, first, i as nat).err is None,
            refs_sim(p, handles, first, i as nat).count == count,
        decreases n - i,
    {
        let re = &payload.map_ref_ents[i];
        assert(*re == p.map_ref_ents@[i as int]);
        let ghost frames = ref_frames(p, *re);
        let ghost uvs = ref_uvs(p, *re);
        if !ref_check(payload, img_handles, re, count) {
            proof {
                lemma_refs_sim_stops(p, handles, first, (i + 1) as nat, n as nat);
            }
            return false;
        }
        let mut matching = true;
        let mut g: usize = 0;
        while g < re.vertices.len()
            invariant
                frames == ref_frames(p, *re),
                uvs == ref_uvs(p, *re),
                g <= re.vertices@.len(),
                frames.len() == re.vertices@.len(),
                uvs.len() == re.uvs@.len(),
                matching == forall|h: int| 0 <= h < g ==> (#[trigger] frames[h]).len() == uvs.len(),
            decreases re.vertices@.len() - g,
        {
            assert(frames[g as int].len() == re.vertices@[g as int]@.len());
            if re.vertices[g].len() != re.uvs.len() {
                matching = false;
            }
            g = g + 1;
        }
        assert(matching == frames_match(frames, uvs));
        if !matching {
            proof {
                assert(refs_sim(p, handles, first, (i + 1) as nat).err is Some);
                lemma_refs_sim_stops(p, handles, first, (i + 1) as nat, n as nat);
            }
            return true;
        }
        proof {
            lemma_pack_count(frames, uvs, count as int);
        }
        count = count + re.vertices.len() * re.uvs.len();
        i = i + 1;
    }
    let m = payload.map_ins_ents.len();
    let len = payload.floats.len();
    let mut k: usize = 0;
    while k < m
        invariant
            p == *payload,
            m == p.map_ins_ents@.len(),
            len == p.floats@.len(),
            k <= m,
            handles == img_handles@,
            first == first_vertex as int,
            refs_sim(p, handles, first, p.map_ref_ents@.len()).ok,
            refs_sim(p, handles, first, p.map_ref_ents@.len()).err is None,
            forall|j: int| 0 <= j < k ==> entity_ok(p, #[trigger] p.map_ins_ents@[j]),
        decreases m - k,
    {
        let ei = &payload.map_ins_ents[k];
        let ok = (ei.location as u64) + 3 <= (len as u64) && (ei.rotation as u64) + 4 <= (len as u64)
            && (ei.scale as u64) + 3 <= (len as u64) && (ei.location as u64) + 2 <= (u32::MAX as u64)
            && (ei.rotation as u64) + 3 <= (u32::MAX as u64) && (ei.scale as u64) + 2 <= (
        u32::MAX as u64);
        if !ok {
            assert(!entity_ok(p, p.map_ins_ents@[k as int]));
            return false;
        }
        k = k + 1;
    }
    true
}

/// A loaded entity model is its compiled record read against the map's
/// tables: its name and texture handle, its frame names looked up in the
/// frame-name table, the given frame handles, the number of vertices of a
/// frame; and, for a decoration model, a collision mesh whose `i`-th
/// triangle has the first frame's vertices `3i`, `3i + 1`, `3i + 2`.
pub proof fn lemma_loaded_model_shape(p: Payload, handles: Seq<usize>, re: MapRefEntity, h: Seq<usize>)
    requires
        re.vertices@.len() > 0,
    ensures
        ({
            let r = ref_view(p, handles, re, h);
            let v0 = re.vertices@[0]@;
            &&& r.index == re.name as usize
            &&& r.texture_handle == handles[re.texture as int]
            &&& r.frame_handles == h
            &&& r.num_verts == v0.len() as usize
            &&& r.frame_names.len() == re.frame_names@.len()
            &&& forall|k: int|
                0 <= k < re.frame_names@.len() ==> #[trigger] r.frame_names[k]
                    == p.fn_data@[re.frame_names@[k] as int]@
            &&& !re.is_decor ==> r.mesh.len() == 0
            &&& re.is_decor ==> r.mesh.len() == v0.len() / 3 && forall|i: int|
                0 <= i < v0.len() / 3 ==> #[trigger] r.mesh[i] == (MeshTriangle {
                    a: vec3_at(p.floats@, v0[3 * i]),
                    b: vec3_at(p.floats@, v0[3 * i + 1]),
                    c: vec3_at(p.floats@, v0[3 * i + 2]),
                })
        }),
{
}

/// When the entity models of a map load without error, the `k`-th loaded
/// model is the `k`-th compiled one read against the map's tables, with one
/// frame handle per frame.
pub proof fn lemma_refs_follow_models(p: Payload, handles: Seq<usize>, first: int, n: nat)
    requires
        n <= p.map_ref_ents@.len(),
        refs_sim(p, handles, first, n).ok,
        refs_sim(p, handles, first, n).err is None,
    ensures
        refs_sim(p, handles, first, n).refs.len() == n,
        forall|k: int|
            0 <= k < n ==> {
                let r = #[trigger] refs_sim(p, handles, first, n).refs[k];
                &&& r == ref_view(p, handles, p.map_ref_ents@[k], r.frame_handles)
                &&& r.frame_handles.len() == p.map_ref_ents@[k].vertices@.len()
                &&& p.map_ref_ents@[k].vertices@.len() > 0
            },
    decreases n,
{
    if n > 0 {
        let s0 = refs_sim(p, handles, first, (n - 1) as nat);
        assert(s0.ok && s0.err is None);
        lemma_refs_follow_models(p, handles, first, (n - 1) as nat);
        let re = p.map_ref_ents@[n - 1];
        let frames = ref_frames(p, re);
        let uvs = ref_uvs(p, re);
        let h = pack_result(frames, uvs, s0.count)->Ok_0;
        let s1 = refs_sim(p, handles, first, n);
        assert(s1.refs == s0.refs.push(ref_view(p, handles, re, h)));
        assert(h.len() == frames.len());
        assert forall|k: int| 0 <= k < n implies {
            let r = #[trigger] s1.refs[k];
            &&& r == ref_view(p, handles, p.map_ref_ents@[k], r.frame_handles)
            &&& r.frame_handles.len() == p.map_ref_ents@[k].vertices@.len()
            &&& p.map_ref_ents@[k].vertices@.len() > 0
        } by {
            if k < n - 1 {
                assert(s1.refs[k] == s0.refs[k]);
            }
        }
    }
}

} // verus!
