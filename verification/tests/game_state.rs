use niveluno::audio::{load_mus, load_sfx};
use niveluno::banner::{barrier_banner_layout, LETTER_H, LETTER_W};
use niveluno::entity_params::{barrier_id, light_color, light_orientation, Orientation};
use niveluno::equipment::{equipment_from_entity_name, pickup_equipment, Equipment, FontColor};
use niveluno::error::NUError;
use niveluno::g_game::{
    get_animation_ids, get_barrier_instances, get_decor_instances, get_param, get_player_instance,
    get_ref_entity, get_state, get_symb_font, get_text_font_lg, get_text_font_sm, init,
    init_level, run, set_fonts, set_state, stage_level, GameGod, InstanceSpawn, SizedFontHandle,
    TopState,
};
use niveluno::gcyl::GcylFrames;
use niveluno::instance::{instance_from_str, ref_ent_from_str, InstanceKind};
use niveluno::map::{Entity, GameMap, LoadedEnttReference, MapPayload};
use niveluno::payload::{QuatBits, Vec3Bits};

fn strings(v: &[&str]) -> Vec<String> {
    v.iter().map(|s| s.to_string()).collect()
}

fn entity(ref_id: usize, params: Vec<u32>) -> Entity {
    let z = Vec3Bits { x: 0, y: 0, z: 0 };
    Entity { ref_id, has_ref: true, params, location: z, rotation: QuatBits { x: 0, y: 0, z: 0, w: 0 }, scale: z }
}

fn model(index: usize, frames: &[&str]) -> LoadedEnttReference {
    LoadedEnttReference {
        index,
        texture_handle: 10 + index,
        frame_names: strings(frames),
        frame_handles: (0..frames.len()).map(|f| 100 * index + f).collect(),
        mesh: vec![],
        num_verts: 3,
    }
}

fn level(names: &[&str], entities: Vec<Entity>, kvs: &[&str]) -> GameMap {
    GameMap {
        payload: MapPayload { ern_data: strings(names), kvs_data: strings(kvs), fn_data: vec![] },
        map_entities: entities,
        ref_entities: (0..names.len()).map(|i| model(i, &["default", "walk_1", "walk_2"])).collect(),
    }
}

fn game_with(l: GameMap) -> Option<GameGod> {
    let mut gg = None;
    init(&mut gg).unwrap();
    stage_level(&mut gg, l).unwrap();
    assert_eq!(run(&mut gg), Ok(true));
    gg
}

#[test]
fn the_catalogue() {
    assert_eq!(instance_from_str("dungeon.plate"), Some(InstanceKind::DComputer));
    assert_eq!(instance_from_str("platformer.ball"), Some(InstanceKind::DComputer));
    assert_eq!(instance_from_str("block.wood"), Some(InstanceKind::DComputer));
    assert_eq!(instance_from_str("blocks.computer"), Some(InstanceKind::DComputer));
    assert_eq!(instance_from_str("computer"), Some(InstanceKind::DComputer));
    assert_eq!(instance_from_str("city.watertower"), Some(InstanceKind::DComputer));
    assert_eq!(instance_from_str("floor"), Some(InstanceKind::DFloor));
    assert_eq!(instance_from_str("viridian_house"), Some(InstanceKind::DFloor));
    assert_eq!(instance_from_str("viridian_floor"), Some(InstanceKind::DFloor));
    assert_eq!(instance_from_str("tree"), Some(InstanceKind::DFloor));
    assert_eq!(instance_from_str("platform"), Some(InstanceKind::DPlatform));
    assert_eq!(instance_from_str("table"), Some(InstanceKind::DTable));
    assert_eq!(instance_from_str("barrier"), Some(InstanceKind::EBarrier));
    assert_eq!(instance_from_str("gcyl"), Some(InstanceKind::EGcyl));
    assert_eq!(instance_from_str("light"), Some(InstanceKind::ELight));
    assert_eq!(instance_from_str("player"), Some(InstanceKind::EPlayer));
    assert_eq!(instance_from_str("pig"), Some(InstanceKind::EPig));
    assert_eq!(instance_from_str("menu_m"), Some(InstanceKind::EMenuM));
    assert_eq!(instance_from_str("menu_e"), Some(InstanceKind::EMenuE));
    assert_eq!(instance_from_str("menu_n"), Some(InstanceKind::EMenuN));
    assert_eq!(instance_from_str("menu_u"), Some(InstanceKind::EMenuU));
    assert_eq!(instance_from_str("trigger_levelchange"), None);
    assert_eq!(instance_from_str("ogre"), None);
    assert_eq!(instance_from_str(""), None);
    assert_eq!(instance_from_str("Floor"), None);
    assert!(InstanceKind::DTable.is_decor());
    assert!(!InstanceKind::EPig.is_decor());
}

#[test]
fn model_lookup_takes_the_last_match() {
    let l = level(&["pig", "player", "pig"], vec![], &[]);
    assert_eq!(ref_ent_from_str("pig", &l).map(|r| r.index), Some(2));
    assert_eq!(ref_ent_from_str("player", &l).map(|r| r.texture_handle), Some(11));
    assert!(ref_ent_from_str("ogre", &l).is_none());
}

#[test]
fn game_state_before_init() {
    let mut gg: Option<GameGod> = None;
    let uninit = NUError::MiscError("GAME_GOD uninit".to_string());
    assert_eq!(get_state(&gg), Err(uninit.clone()));
    assert_eq!(set_state(&mut gg, TopState::Play), Err(uninit.clone()));
    assert_eq!(run(&mut gg), Err(uninit.clone()));
    assert_eq!(get_param(&gg, 0), Err(uninit.clone()));
    assert_eq!(get_text_font_lg(&gg), Err(uninit.clone()));
    assert_eq!(get_player_instance(&gg), Err(uninit));
}

#[test]
fn game_state_starts_in_the_menu_once() {
    let mut gg = None;
    init(&mut gg).unwrap();
    assert_eq!(init(&mut gg), Err(NUError::MiscError("GAME_GOD already init".to_string())));
    assert_eq!(get_state(&gg), Ok(TopState::Menu));
    set_state(&mut gg, TopState::Play).unwrap();
    assert_eq!(get_state(&gg), Ok(TopState::Play));
    set_fonts(&mut gg, SizedFontHandle { h: 0 }, SizedFontHandle { h: 1 }, SizedFontHandle { h: 2 }).unwrap();
    assert_eq!(get_text_font_lg(&gg), Ok(SizedFontHandle { h: 0 }));
    assert_eq!(get_text_font_sm(&gg), Ok(SizedFontHandle { h: 1 }));
    assert_eq!(get_symb_font(&gg), Ok(SizedFontHandle { h: 2 }));
    // no level yet
    assert_eq!(run(&mut gg), Ok(false));
    assert_eq!(get_param(&gg, 0), Err(NUError::MiscError("level not set".to_string())));
    assert_eq!(get_ref_entity(&gg, 0).err(), Some(NUError::MiscError("level not set".to_string())));
}

#[test]
fn a_staged_level_replaces_the_current_one_at_the_next_frame() {
    let l = level(
        &["player", "floor", "trigger_levelchange", "ogre", "barrier"],
        vec![entity(1, vec![]), entity(0, vec![]), entity(2, vec![]), entity(3, vec![]), entity(4, vec![])],
        &["id", "3"],
    );
    let mut gg = None;
    init(&mut gg).unwrap();
    stage_level(&mut gg, l).unwrap();
    {
        let g = gg.as_ref().unwrap();
        assert!(g.current_level.is_none());
        assert!(g.next_level.is_some());
    }
    assert_eq!(run(&mut gg), Ok(true));
    let g = gg.as_ref().unwrap();
    assert!(g.next_level.is_none());
    assert_eq!(g.current_level.as_ref().unwrap().map_entities.len(), 5);
    assert_eq!(
        g.entts_inst,
        vec![
            InstanceSpawn { kind: InstanceKind::DFloor, entity: 0 },
            InstanceSpawn { kind: InstanceKind::EPlayer, entity: 1 },
            InstanceSpawn { kind: InstanceKind::EBarrier, entity: 4 },
        ]
    );
    // a second frame without a staged level changes nothing
    assert_eq!(run(&mut gg), Ok(false));
    assert_eq!(gg.as_ref().unwrap().entts_inst.len(), 3);
    assert_eq!(get_decor_instances(&gg), Ok(vec![0]));
    assert_eq!(get_barrier_instances(&gg), Ok(vec![2]));
    assert_eq!(get_player_instance(&gg), Ok(1));
    assert_eq!(get_param(&gg, 1), Ok("3"));
    assert_eq!(get_param(&gg, 2), Err(NUError::MiscError("id exceeds kvs_data len".to_string())));
    assert_eq!(get_ref_entity(&gg, 4).map(|r| r.texture_handle), Ok(14));
    assert_eq!(
        get_ref_entity(&gg, 5).err(),
        Some(NUError::MiscError("id exceeds ref_entts len".to_string()))
    );
}

#[test]
fn init_level_spawns_known_entities_in_order() {
    let l = level(&["pig", "gcyl", "menu_u"], vec![entity(2, vec![]), entity(0, vec![]), entity(1, vec![])], &[]);
    assert_eq!(
        init_level(&l),
        vec![
            InstanceSpawn { kind: InstanceKind::EMenuU, entity: 0 },
            InstanceSpawn { kind: InstanceKind::EPig, entity: 1 },
            InstanceSpawn { kind: InstanceKind::EGcyl, entity: 2 },
        ]
    );
}

#[test]
fn exactly_one_player_is_expected() {
    let none = game_with(level(&["pig"], vec![entity(0, vec![])], &[]));
    assert_eq!(get_player_instance(&none), Err(NUError::MiscError("expected exactly one player".to_string())));
    let two = game_with(level(&["player"], vec![entity(0, vec![]), entity(0, vec![])], &[]));
    assert_eq!(get_player_instance(&two), Err(NUError::MiscError("expected exactly one player".to_string())));
}

#[test]
fn animation_frames_are_found_by_name() {
    let r = model(0, &["default", "walk_1", "walk_2", "walk_1"]);
    let walk: Vec<&str> = vec!["walk_1", "walk_2"];
    let odd: Vec<&str> = vec!["missing", "default"];
    let ids = get_animation_ids(&vec![walk, odd, vec![]], &r);
    assert_eq!(ids, vec![vec![1, 2], vec![0, 0], vec![]]);
}

#[test]
fn light_parameters() {
    let gg = game_with(level(
        &["light"],
        vec![],
        &["color", "10,20,30,40", "orientation", "ud", "bf", "weird", "orientation", "color"],
    ));
    // no parameters: the defaults
    assert_eq!(light_color(&gg, &vec![]), [1, 128, 255, 255]);
    assert_eq!(light_orientation(&gg, &vec![]), Orientation::LeftRight);
    assert_eq!(light_color(&gg, &vec![0, 1]), [10, 20, 30, 40]);
    assert_eq!(light_orientation(&gg, &vec![2, 3]), Orientation::UpDown);
    // the last orientation wins; an unknown one is unset
    assert_eq!(light_orientation(&gg, &vec![2, 3, 2, 4]), Orientation::BackForward);
    assert_eq!(light_orientation(&gg, &vec![2, 4, 2, 5]), Orientation::Unset);
    // the first color wins
    assert_eq!(light_color(&gg, &vec![0, 1, 0, 7]), [10, 20, 30, 40]);
}

#[test]
fn barrier_ids() {
    let gg = game_with(level(&["barrier"], vec![], &["id", "42", "name", "bob"]));
    assert_eq!(barrier_id(&gg, &vec![]), None);
    assert_eq!(barrier_id(&gg, &vec![0, 1]), Some(42));
    assert_eq!(barrier_id(&gg, &vec![2, 3, 0, 1]), Some(42));
}

#[test]
fn equipment_details() {
    let d = Equipment::Pistol.get_details();
    assert_eq!(d.name, "pistol");
    assert_eq!(d.icon, '\u{f0703}');
    assert_eq!(d.action, "ACQUIRED");
    assert_eq!(d.font_color, FontColor { r: 196, g: 32, b: 32, a: 255 });
    let d = Equipment::Anchor.get_details();
    assert_eq!(d.name, "anchor");
    assert_eq!(d.action, "HAULED UP");
    assert_eq!(d.font_color, FontColor { r: 80, g: 140, b: 200, a: 255 });
    assert_eq!(Equipment::Candle.get_details().icon, '\u{f05e2}');
}

#[test]
fn equipment_names_round_trip() {
    for e in [
        Equipment::Pistol,
        Equipment::Flag,
        Equipment::CandyCane,
        Equipment::Wrench,
        Equipment::IceCream,
        Equipment::Bottle,
        Equipment::Apple,
        Equipment::Book,
        Equipment::Knife,
        Equipment::Cookie,
        Equipment::Key,
        Equipment::Anchor,
        Equipment::Candle,
    ] {
        assert_eq!(equipment_from_entity_name(e.entity_name()), Some(e));
    }
    assert_eq!(equipment_from_entity_name("xmas.cookie"), Some(Equipment::Cookie));
    assert_eq!(equipment_from_entity_name("pistol"), None);
}

#[test]
fn pickups_name_their_equipment() {
    let gg = game_with(level(&["pickup"], vec![], &["_decor", "tools.key_B", "other", "medieval.anchor"]));
    assert_eq!(pickup_equipment(&gg, &vec![]), Equipment::Candle);
    assert_eq!(pickup_equipment(&gg, &vec![0, 1]), Equipment::Key);
    assert_eq!(pickup_equipment(&gg, &vec![2, 3, 0, 3]), Equipment::Anchor);
}

#[test]
fn cylinder_frames_by_name() {
    assert_eq!(GcylFrames::from("default"), GcylFrames::Default);
    assert_eq!(GcylFrames::from("Cylinder.001"), GcylFrames::Cylinder001);
    assert_eq!(GcylFrames::from("Cylinder.002"), GcylFrames::Cylinder002);
    assert_eq!(GcylFrames::from("Cylinder.003"), GcylFrames::Default);
}

#[test]
fn audio_loading_succeeds() {
    assert_eq!(load_sfx(), Ok(()));
    assert_eq!(load_mus(), Ok(()));
}

#[test]
fn banner_layout() {
    let b = barrier_banner_layout(0);
    assert_eq!(b.text.iter().collect::<String>(), "LV. 0");
    assert_eq!(b.width, LETTER_W * 5 + LETTER_W / 2);
    assert_eq!(b.width, 55);
    assert_eq!(b.height, LETTER_H);
    let b = barrier_banner_layout(4096);
    assert_eq!(b.text.iter().collect::<String>(), "LV. 4096");
    assert_eq!(b.glyphs.len(), 8);
    assert_eq!(b.glyphs[4].glyph, '4');
    assert_eq!(b.glyphs[4].x, 42);
    assert_eq!(b.glyphs[4].shadow_x, 43);
    assert_eq!(b.glyphs[4].shadow_y, 2);
    let b = barrier_banner_layout(u32::MAX);
    assert_eq!(b.text.iter().collect::<String>(), "LV. 4294967295");
    assert_eq!(b.width, 145);
}
