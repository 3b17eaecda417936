//! The compiled map as the map file carries it: one table of floats that
//! every position, rotation, scale, vertex and texture coordinate refers to
//! by index, the images, the name tables, the model references and the
//! placed instances.
//!
//! Floats travel through the loaders unchanged, so they are held here as
//! their bit patterns (`f32::to_bits`); the renderer turns them back.
use vstd::prelude::*;

verus! {

/// Three floats, as bit patterns.
#[derive(Debug, Clone, Copy, PartialEq, Eq)]
pub struct Vec3Bits {
    pub x: u32,
    pub y: u32,
    pub z: u32,
}

/// Two floats (a texture coordinate), as bit patterns.
#[derive(Debug, Clone, Copy, PartialEq, Eq)]
pub struct Vec2Bits {
    pub u: u32,
    pub v: u32,
}

/// Four floats (a rotation quaternion), as bit patterns.
#[derive(Debug, Clone, Copy, PartialEq, Eq)]
pub struct QuatBits {
    pub x: u32,
    pub y: u32,
    pub z: u32,
    pub w: u32,
}

/// A decoration model: its name and texture (indices into the name and
/// image tables), and for each of its vertices the index of its first
/// coordinate and of its first texture coordinate in the float table.
pub struct MapRefDecor {
    pub name: u32,
    pub texture: u32,
    pub vertices: Vec<u32>,
    pub uvs: Vec<u32>,
}

/// An entity model: like a decoration model, but with one vertex list per
/// animation frame, the frame names (indices into the frame-name table), and
/// whether its first frame is also a collision mesh.
pub struct MapRefEntity {
    pub name: u32,
    pub texture: u32,
    pub vertices: Vec<Vec<u32>>,
    pub uvs: Vec<u32>,
    pub is_decor: bool,
    pub frame_names: Vec<u32>,
}

/// A placed decoration: its model and the indices of its position, rotation
/// and scale in the float table.
pub struct MapInsDecor {
    pub index: u32,
    pub location: u32,
    pub rotation: u32,
    pub scale: u32,
}

/// A placed entity: its model, whether it has one, its parameters (indices
/// into the key/value table, key then value), and the indices of its
/// position, rotation and scale in the float table.
pub struct MapInsEntity {
    pub index: u32,
    pub has_ref: bool,
    pub params: Vec<u32>,
    pub location: u32,
    pub rotation: u32,
    pub scale: u32,
}

/// A compiled map.
pub struct Payload {
    pub floats: Vec<u32>,
    pub img_data: Vec<Vec<u8>>,
    pub drn_data: Vec<String>,
    pub ern_data: Vec<String>,
    pub kvs_data: Vec<String>,
    pub fn_data: Vec<String>,
    pub map_ref_decs: Vec<MapRefDecor>,
    pub map_ref_ents: Vec<MapRefEntity>,
    pub map_ins_decs: Vec<MapInsDecor>,
    pub map_ins_ents: Vec<MapInsEntity>,
}

/// `i` starts `n` consecutive floats of a table of `len` floats, and
/// `i + n - 1` is a `u32`.
pub open spec fn float_run_ok(len: int, i: u32, n: int) -> bool {
    (i as int) + n <= len && (i as int) + n - 1 <= u32::MAX
}

/// Every index of `idx` starts `n` consecutive floats of `floats`.
pub open spec fn float_runs_ok(floats: Seq<u32>, idx: Seq<u32>, n: int) -> bool {
    forall|k: int| 0 <= k < idx.len() ==> float_run_ok(floats.len() as int, #[trigger] idx[k], n)
}

/// The three floats that start at `i`.
pub open spec fn vec3_at(floats: Seq<u32>, i: u32) -> Vec3Bits {
    Vec3Bits { x: floats[i as int], y: floats[i + 1], z: floats[i + 2] }
}

/// The two floats that start at `i`.
pub open spec fn vec2_at(floats: Seq<u32>, i: u32) -> Vec2Bits {
    Vec2Bits { u: floats[i as int], v: floats[i + 1] }
}

/// The four floats that start at `i`.
pub open spec fn quat_at(floats: Seq<u32>, i: u32) -> QuatBits {
    QuatBits { x: floats[i as int], y: floats[i + 1], z: floats[i + 2], w: floats[i + 3] }
}

/// The vertices that a list of float indices names.
pub open spec fn gather_vec3_spec(floats: Seq<u32>, idx: Seq<u32>) -> Seq<Vec3Bits> {
    Seq::new(idx.len(), |k: int| vec3_at(floats, idx[k]))
}

/// The texture coordinates that a list of float indices names.
pub open spec fn gather_vec2_spec(floats: Seq<u32>, idx: Seq<u32>) -> Seq<Vec2Bits> {
    Seq::new(idx.len(), |k: int| vec2_at(floats, idx[k]))
}

/// Reads three floats from the table.
pub fn read_vec3(floats: &Vec<u32>, i: u32) -> (res: Vec3Bits)
    requires
        float_run_ok(floats@.len() as int, i, 3),
    ensures
        res == vec3_at(floats@, i),
{
    Vec3Bits {
        x: floats[(i + 0) as usize],
        y: floats[(i + 1) as usize],
        z: floats[(i + 2) as usize],
    }
}

/// Reads two floats from the table.
pub fn read_vec2(floats: &Vec<u32>, i: u32) -> (res: Vec2Bits)
    requires
        float_run_ok(floats@.len() as int, i, 2),
    ensures
        res == vec2_at(floats@, i),
{
    Vec2Bits { u: floats[(i + 0) as usize], v: floats[(i + 1) as usize] }
}

/// Reads four floats from the table.
pub fn read_quat(floats: &Vec<u32>, i: u32) -> (res: QuatBits)
    requires
        float_run_ok(floats@.len() as int, i, 4),
    ensures
        res == quat_at(floats@, i),
{
    QuatBits {
        x: floats[(i + 0) as usize],
        y: floats[(i + 1) as usize],
        z: floats[(i + 2) as usize],
        w: floats[(i + 3) as usize],
    }
}

/// The vertices that a list of float indices names.
pub fn gather_vec3(floats: &Vec<u32>, idx: &Vec<u32>) -> (res: Vec<Vec3Bits>)
    requires
        float_runs_ok(floats@, idx@, 3),
    ensures
        res@ == gather_vec3_spec(floats@, idx@),
{
    let mut out: Vec<Vec3Bits> = Vec::new();
    let mut k: usize = 0;
    while k < idx.len()
        invariant
            k <= idx@.len(),
            float_runs_ok(floats@, idx@, 3),
            out@ =~= gather_vec3_spec(floats@, idx@).take(k as int),
        decreases idx.len() - k,
    {
        out.push(read_vec3(floats, idx[k]));
        k = k + 1;
    }
    out
}

/// The texture coordinates that a list of float indices names.
pub fn gather_vec2(floats: &Vec<u32>, idx: &Vec<u32>) -> (res: Vec<Vec2Bits>)
    requires
        float_runs_ok(floats@, idx@, 2),
    ensures
        res@ == gather_vec2_spec(floats@, idx@),
{
    let mut out: Vec<Vec2Bits> = Vec::new();
    let mut k: usize = 0;
    while k < idx.len()
        invariant
            k <= idx@.len(),
            float_runs_ok(floats@, idx@, 2),
            out@ =~= gather_vec2_spec(floats@, idx@).take(k as int),
        decreases idx.len() - k,
    {
        out.push(read_vec2(floats, idx[k]));
        k = k + 1;
    }
    out
}

/// A vertex, texture coordinate or rotation read from the float table at
/// `i` is the consecutive floats from `i` on, in order; a gathered list has
/// one entry per index, read at that index.
pub proof fn lemma_float_runs(floats: Seq<u32>, idx: Seq<u32>, i: u32)
    ensures
        vec3_at(floats, i).x == floats[i as int] && vec3_at(floats, i).y == floats[i + 1]
            && vec3_at(floats, i).z == floats[i + 2],
        vec2_at(floats, i).u == floats[i as int] && vec2_at(floats, i).v == floats[i + 1],
        quat_at(floats, i).x == floats[i as int] && quat_at(floats, i).y == floats[i + 1]
            && quat_at(floats, i).z == floats[i + 2] && quat_at(floats, i).w == floats[i + 3],
        gather_vec3_spec(floats, idx).len() == idx.len(),
        gather_vec2_spec(floats, idx).len() == idx.len(),
        forall|k: int|
            0 <= k < idx.len() ==> #[trigger] gather_vec3_spec(floats, idx)[k] == vec3_at(
                floats,
                idx[k],
            ) && gather_vec2_spec(floats, idx)[k] == vec2_at(floats, idx[k]),
{
}

} // verus!
