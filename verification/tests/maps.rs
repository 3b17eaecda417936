use niveluno::error::NUError;
use niveluno::level::load_level;
use niveluno::map::{load, load_check};
use niveluno::mesh::{pack_floats, TriangleJob};
use niveluno::payload::{
    gather_vec2, gather_vec3, read_quat, read_vec2, read_vec3, MapInsDecor, MapInsEntity,
    MapRefDecor, MapRefEntity, Payload, QuatBits, Vec2Bits, Vec3Bits,
};

fn v3(x: u32, y: u32, z: u32) -> Vec3Bits {
    Vec3Bits { x, y, z }
}

fn v2(u: u32, v: u32) -> Vec2Bits {
    Vec2Bits { u, v }
}

/// A float table: three corners at 0, 3 and 6, texture coordinates at 9,
/// 11 and 13, and a second frame's corners at 15, 18 and 21.
fn floats() -> Vec<u32> {
    (100..124).collect()
}

fn strings(v: &[&str]) -> Vec<String> {
    v.iter().map(|s| s.to_string()).collect()
}

fn payload(ref_ents: Vec<MapRefEntity>, ins_ents: Vec<MapInsEntity>) -> Payload {
    Payload {
        floats: floats(),
        img_data: vec![vec![1, 2, 3]],
        drn_data: strings(&["floor"]),
        ern_data: strings(&["gcyl", "player"]),
        kvs_data: strings(&["id", "7"]),
        fn_data: strings(&["default", "Cylinder.001"]),
        map_ref_decs: vec![],
        map_ref_ents: ref_ents,
        map_ins_decs: vec![],
        map_ins_ents: ins_ents,
    }
}

#[test]
fn reading_float_runs() {
    let f = floats();
    assert_eq!(read_vec3(&f, 3), v3(103, 104, 105));
    assert_eq!(read_vec2(&f, 9), v2(109, 110));
    assert_eq!(read_quat(&f, 0), QuatBits { x: 100, y: 101, z: 102, w: 103 });
    assert_eq!(gather_vec3(&f, &vec![6, 0]), vec![v3(106, 107, 108), v3(100, 101, 102)]);
    assert_eq!(gather_vec2(&f, &vec![11]), vec![v2(111, 112)]);
}

#[test]
fn packing_gives_frame_handles_and_triangles() {
    let frame_a = vec![v3(1, 1, 1), v3(2, 2, 2), v3(3, 3, 3)];
    let frame_b = vec![v3(4, 4, 4), v3(5, 5, 5), v3(6, 6, 6)];
    let uvs = vec![v2(0, 0), v2(1, 0), v2(0, 1)];
    let mut jobs = vec![];
    let h = pack_floats(vec![frame_a, frame_b], uvs, 12, &mut jobs).unwrap();
    // each frame handle is where the frame's first vertex lands
    assert_eq!(h, vec![12, 15]);
    assert_eq!(jobs.len(), 2);
    assert_eq!(
        jobs[1],
        TriangleJob {
            v0: v3(4, 4, 4),
            v1: v3(5, 5, 5),
            v2: v3(6, 6, 6),
            t0: v2(0, 0),
            t1: v2(1, 0),
            t2: v2(0, 1),
        }
    );
    assert_eq!(12 + 3 * jobs.len(), 18);
}

#[test]
fn packing_errors() {
    let mut jobs = vec![];
    let r = pack_floats(vec![vec![v3(1, 1, 1)]], vec![], 0, &mut jobs);
    assert_eq!(r, Err(NUError::MiscError("vert len differs from uv len".to_string())));
    assert!(jobs.is_empty());
    let r = pack_floats(vec![], vec![v2(0, 0), v2(0, 0), v2(0, 0)], 0, &mut jobs);
    assert_eq!(r, Err(NUError::MiscError("frame handle length was 0".to_string())));
    assert!(jobs.is_empty());
}

fn gcyl_model() -> MapRefEntity {
    MapRefEntity {
        name: 0,
        texture: 0,
        vertices: vec![vec![0, 3, 6], vec![15, 18, 21]],
        uvs: vec![9, 11, 13],
        is_decor: true,
        frame_names: vec![0, 1],
    }
}

#[test]
fn loading_a_map() {
    let placed = MapInsEntity { index: 0, has_ref: true, params: vec![0, 1], location: 0, rotation: 4, scale: 8 };
    let p = payload(vec![gcyl_model()], vec![placed]);
    let mut jobs = vec![];
    let m = load(p, &vec![7], 30, &mut jobs).unwrap();
    assert_eq!(jobs.len(), 2);
    assert_eq!(m.payload.ern_data, strings(&["gcyl", "player"]));
    assert_eq!(m.payload.kvs_data, strings(&["id", "7"]));
    assert_eq!(m.ref_entities.len(), 1);
    let r = &m.ref_entities[0];
    assert_eq!(r.index, 0);
    assert_eq!(r.texture_handle, 7);
    assert_eq!(r.frame_names, strings(&["default", "Cylinder.001"]));
    assert_eq!(r.frame_handles, vec![30, 33]);
    assert_eq!(r.num_verts, 3);
    assert_eq!(r.mesh.len(), 1);
    assert_eq!(r.mesh[0].b, v3(103, 104, 105));
    assert_eq!(m.map_entities.len(), 1);
    let e = &m.map_entities[0];
    assert_eq!(e.ref_id, 0);
    assert!(e.has_ref);
    assert_eq!(e.params, vec![0, 1]);
    assert_eq!(e.location, v3(100, 101, 102));
    assert_eq!(e.rotation, QuatBits { x: 104, y: 105, z: 106, w: 107 });
    assert_eq!(e.scale, v3(108, 109, 110));
}

#[test]
fn loading_stops_at_a_bad_model() {
    let good = gcyl_model();
    let bad = MapRefEntity {
        name: 1,
        texture: 0,
        vertices: vec![vec![0, 3, 6]],
        uvs: vec![9, 11],
        is_decor: false,
        frame_names: vec![],
    };
    let p = payload(vec![good, bad], vec![]);
    let mut jobs = vec![];
    let r = load(p, &vec![7], 0, &mut jobs);
    assert_eq!(r.err(), Some(NUError::MiscError("vert len differs from uv len".to_string())));
    // the triangles of the model before the bad one were handed over
    assert_eq!(jobs.len(), 2);
}

#[test]
fn loading_a_level() {
    let mut p = payload(vec![gcyl_model()], vec![]);
    p.map_ref_decs = vec![MapRefDecor { name: 0, texture: 0, vertices: vec![0, 3, 6], uvs: vec![9, 11, 13] }];
    p.map_ins_decs = vec![MapInsDecor { index: 0, location: 0, rotation: 4, scale: 8 }];
    p.map_ins_ents = vec![MapInsEntity { index: 1, has_ref: false, params: vec![], location: 3, rotation: 4, scale: 8 }];
    let mut jobs = vec![];
    let l = load_level(p, vec![5], 3, &mut jobs).unwrap();
    // the decoration's frame first, then the entity model's two frames
    assert_eq!(jobs.len(), 3);
    assert_eq!(l.ref_decor.len(), 1);
    assert_eq!(l.ref_decor[0].frame_handle, 3);
    assert_eq!(l.ref_decor[0].texture_handle, 5);
    assert_eq!(l.ref_entities[0].frame_handles, vec![6, 9]);
    assert_eq!(l.map_decor[0].location, v3(100, 101, 102));
    assert_eq!(l.map_entities[0].index, 1);
    assert_eq!(l.map_entities[0].location, v3(103, 104, 105));
    assert_eq!(l.payload.drn_data, strings(&["floor"]));
    assert_eq!(l.img_handles, vec![5]);
}

#[test]
fn a_level_with_a_frameless_model_is_refused() {
    let mut p = payload(vec![], vec![]);
    p.map_ref_ents = vec![MapRefEntity {
        name: 0,
        texture: 0,
        vertices: vec![],
        uvs: vec![9, 11, 13],
        is_decor: false,
        frame_names: vec![],
    }];
    let mut jobs = vec![];
    let r = load_level(p, vec![5], 0, &mut jobs);
    assert_eq!(r.err(), Some(NUError::MiscError("frame handle length was 0".to_string())));
}

#[test]
fn checking_a_map_before_loading() {
    let placed = MapInsEntity { index: 0, has_ref: true, params: vec![], location: 0, rotation: 4, scale: 8 };
    let p = payload(vec![gcyl_model()], vec![placed]);
    assert!(load_check(&p, &vec![7], 0));
    // no texture handle for the model's texture
    assert!(!load_check(&p, &vec![], 0));
    // a frame index past the float table
    let mut far = gcyl_model();
    far.vertices[1][2] = 22;
    assert!(!load_check(&payload(vec![far], vec![]), &vec![7], 0));
    // a frame name past the frame-name table
    let mut unnamed = gcyl_model();
    unnamed.frame_names = vec![2];
    assert!(!load_check(&payload(vec![unnamed], vec![]), &vec![7], 0));
    // a placed entity whose scale runs past the float table
    let off = MapInsEntity { index: 0, has_ref: true, params: vec![], location: 0, rotation: 4, scale: 22 };
    assert!(!load_check(&payload(vec![gcyl_model()], vec![off]), &vec![7], 0));
    // a model whose lengths differ stops loading with an error, not a panic
    let bad = MapRefEntity { name: 1, texture: 0, vertices: vec![vec![0, 3, 6]], uvs: vec![9, 11], is_decor: false, frame_names: vec![] };
    let off = MapInsEntity { index: 0, has_ref: true, params: vec![], location: 0, rotation: 4, scale: 22 };
    assert!(load_check(&payload(vec![bad], vec![off]), &vec![7], 0));
    // the vertex count must stay a usize
    assert!(!load_check(&p, &vec![7], usize::MAX - 2));
}
