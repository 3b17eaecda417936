//! The game state of the earlier level format: the level being played, the
//! decorations and entities spawned from it, and the game clock. Only a few
//! names make an instance here: floors among the decorations, and the
//! spinning cylinder, lights, the player and the menu letters among the
//! entities.
use vstd::prelude::*;

use crate::error::{is_misc_error, NUError};
use crate::g_game::InstanceSpawn;
use crate::instance::InstanceKind;
use crate::level::{Level, LoadedDecorReference, LoadedEnttReference};
use crate::text_util::str_eq;
use crate::time::{TimeGod, FIRST_FRAME_MS};

verus! {

/// The game state.
pub struct GameGod {
    pub current_level: Option<Level>,
    pub decor_inst: Vec<InstanceSpawn>,
    pub entts_inst: Vec<InstanceSpawn>,
    pub clock: TimeGod,
}

/// The kind of decoration instance a decoration model name makes, if any.
pub open spec fn decor_kind_of(s: Seq<char>) -> Option<InstanceKind> {
    if s == "floor"@ {
        Some(InstanceKind::DFloor)
    } else {
        None
    }
}

/// The kind of entity instance an entity model name makes, if any; the
/// level change trigger and unknown names make none.
pub open spec fn entity_kind_of(s: Seq<char>) -> Option<InstanceKind> {
    if s == "gcyl"@ {
        Some(InstanceKind::EGcyl)
    } else if s == "light"@ {
        Some(InstanceKind::ELight)
    } else if s == "player"@ {
        Some(InstanceKind::EPlayer)
    } else if s == "menu_m"@ {
        Some(InstanceKind::EMenuM)
    } else if s == "menu_e"@ {
        Some(InstanceKind::EMenuE)
    } else if s == "menu_n"@ {
        Some(InstanceKind::EMenuN)
    } else if s == "menu_u"@ {
        Some(InstanceKind::EMenuU)
    } else {
        None
    }
}

fn decor_kind(s: &str) -> (res: Option<InstanceKind>)
    ensures
        res == decor_kind_of(s@),
{
    if str_eq(s, "floor") {
        Some(InstanceKind::DFloor)
    } else {
        None
    }
}

fn entity_kind(s: &str) -> (res: Option<InstanceKind>)
    ensures
        res == entity_kind_of(s@),
{
    if str_eq(s, "gcyl") {
        Some(InstanceKind::EGcyl)
    } else if str_eq(s, "light") {
        Some(InstanceKind::ELight)
    } else if str_eq(s, "player") {
        Some(InstanceKind::EPlayer)
    } else if str_eq(s, "menu_m") {
        Some(InstanceKind::EMenuM)
    } else if str_eq(s, "menu_e") {
        Some(InstanceKind::EMenuE)
    } else if str_eq(s, "menu_n") {
        Some(InstanceKind::EMenuN)
    } else if str_eq(s, "menu_u") {
        Some(InstanceKind::EMenuU)
    } else {
        None
    }
}

/// Every placed decoration and entity of `l` names a model that `l` has a
/// name for.
pub open spec fn level_names_resolve(l: Level) -> bool {
    &&& forall|k: int|
        0 <= k < l.map_decor@.len() ==> (#[trigger] l.map_decor@[k]).ref_id
            < l.payload.drn_data@.len()
    &&& forall|k: int|
        0 <= k < l.map_entities@.len() ==> (#[trigger] l.map_entities@[k]).index
            < l.payload.ern_data@.len()
}

/// The decoration instances spawned from the first `n` placed decorations
/// of `l`.
pub open spec fn decor_spawns_upto(l: Level, n: nat) -> Seq<InstanceSpawn>
    decreases n,
{
    if n == 0 {
        Seq::empty()
    } else {
        let before = decor_spawns_upto(l, (n - 1) as nat);
        let name = l.payload.drn_data@[l.map_decor@[n - 1].ref_id as int]@;
        match decor_kind_of(name) {
            Some(k) => before.push(InstanceSpawn { kind: k, entity: (n - 1) as usize }),
            None => before,
        }
    }
}

/// The entity instances spawned from the first `n` placed entities of `l`.
pub open spec fn entity_spawns_upto(l: Level, n: nat) -> Seq<InstanceSpawn>
    decreases n,
{
    if n == 0 {
        Seq::empty()
    } else {
        let before = entity_spawns_upto(l, (n - 1) as nat);
        let name = l.payload.ern_data@[l.map_entities@[n - 1].index as int]@;
        match entity_kind_of(name) {
            Some(k) => before.push(InstanceSpawn { kind: k, entity: (n - 1) as usize }),
            None => before,
        }
    }
}

/// Starts the game state with the clock at `now_ms`; an error if it exists
/// already.
pub fn init(gg: &mut Option<GameGod>, now_ms: u128) -> (res: Result<(), NUError>)
    requires
        now_ms >= FIRST_FRAME_MS,
    ensures
        *old(gg) is Some ==> res is Err && is_misc_error(res->Err_0, "GAME_GOD already init"@)
            && *final(gg) == *old(gg),
        *old(gg) is None ==> res is Ok && *final(gg) is Some && {
            let g = (*final(gg))->0;
            &&& g.current_level is None
            &&& g.decor_inst@.len() == 0
            &&& g.entts_inst@.len() == 0
            &&& g.clock.current_ms() == now_ms
            &&& g.clock.delta_ms() == FIRST_FRAME_MS
            &&& g.clock.start_ms() == now_ms - FIRST_FRAME_MS
        },
{
    if gg.is_some() {
        return Err(NUError::misc("GAME_GOD already init"));
    }
    *gg = Some(
        GameGod {
            current_level: None,
            decor_inst: Vec::new(),
            entts_inst: Vec::new(),
            clock: TimeGod::start(now_ms),
        },
    );
    Ok(())
}

fn uninit() -> (res: NUError)
    ensures
        is_misc_error(res, "GAME_GOD uninit"@),
{
    NUError::misc("GAME_GOD uninit")
}

/// The time since the start, in milliseconds.
pub fn get_run_time_ms(gg: &Option<GameGod>) -> (res: Result<u128, NUError>)
    ensures
        *gg is None ==> res is Err && is_misc_error(res->Err_0, "GAME_GOD uninit"@),
        *gg is Some ==> res is Ok && res->Ok_0 == gg->0.clock.current_ms()
            - gg->0.clock.start_ms(),
{
    match gg {
        None => Err(uninit()),
        Some(g) => Ok(g.clock.run_time_ms()),
    }
}

/// The length of the last frame, in milliseconds.
pub fn get_delta_time_ms(gg: &Option<GameGod>) -> (res: Result<u128, NUError>)
    ensures
        *gg is None ==> res is Err && is_misc_error(res->Err_0, "GAME_GOD uninit"@),
        *gg is Some ==> res is Ok && res->Ok_0 == gg->0.clock.delta_ms() && res->Ok_0
            <= gg->0.clock.current_ms() - gg->0.clock.start_ms(),
{
    match gg {
        None => Err(uninit()),
        Some(g) => Ok(g.clock.delta_time_ms()),
    }
}

/// Makes `level` the current level and spawns its instances: a floor for
/// each placed decoration named "floor", and an instance for each placed
/// entity whose name is known.
pub fn set_and_init_level(gg: &mut Option<GameGod>, level: Level) -> (res: Result<(), NUError>)
    requires
        level_names_resolve(level),
    ensures
        *old(gg) is None ==> res is Err && is_misc_error(res->Err_0, "GAME_GOD uninit"@)
            && *final(gg) == *old(gg),
        *old(gg) is Some ==> res is Ok && *final(gg) is Some && {
            let g = (*final(gg))->0;
            &&& g.current_level == Some(level)
            &&& g.decor_inst@ == decor_spawns_upto(level, level.map_decor@.len())
            &&& g.entts_inst@ == entity_spawns_upto(level, level.map_entities@.len())
            &&& g.clock == (*old(gg))->0.clock
        },
{
    match gg {
        None => Err(uninit()),
        Some(g) => {
            let nd = level.map_decor.len();
            let mut decor: Vec<InstanceSpawn> = Vec::new();
            let mut k: usize = 0;
            while k < nd
                invariant
                    nd == level.map_decor@.len(),
                    k <= nd,
                    level_names_resolve(level),
                    decor@ == decor_spawns_upto(level, k as nat),
                decreases nd - k,
            {
                let md = &level.map_decor[k];
                assert(md.ref_id < level.payload.drn_data@.len());
                match decor_kind(level.payload.drn_data[md.ref_id].as_str()) {
                    Some(kd) => {
                        decor.push(InstanceSpawn { kind: kd, entity: k });
                    },
                    None => {},
                }
                k = k + 1;
            }
            let ne = level.map_entities.len();
            let mut entts: Vec<InstanceSpawn> = Vec::new();
            let mut k: usize = 0;
            while k < ne
                invariant
                    ne == level.map_entities@.len(),
                    k <= ne,
                    level_names_resolve(level),
                    entts@ == entity_spawns_upto(level, k as nat),
                decreases ne - k,
            {
                let me = &level.map_entities[k];
                assert(me.index < level.payload.ern_data@.len());
                match entity_kind(level.payload.ern_data[me.index].as_str()) {
                    Some(kd) => {
                        entts.push(InstanceSpawn { kind: kd, entity: k });
                    },
                    None => {},
                }
                k = k + 1;
            }
            g.current_level = Some(level);
            g.decor_inst = decor;
            g.entts_inst = entts;
            Ok(())
        },
    }
}

/// Moves the clock to `now_ms`, which must not be earlier than the current
/// frame.
pub fn update_time(gg: &mut Option<GameGod>, now_ms: u128) -> (res: Result<(), NUError>)
    requires
        *old(gg) is Some ==> now_ms >= (*old(gg))->0.clock.current_ms(),
    ensures
        *old(gg) is None ==> res is Err && is_misc_error(res->Err_0, "GAME_GOD uninit"@)
            && *final(gg) == *old(gg),
        *old(gg) is Some ==> res is Ok && *final(gg) is Some && {
            let g0 = (*old(gg))->0;
            let g1 = (*final(gg))->0;
            &&& g1.clock.current_ms() == now_ms
            &&& g1.clock.delta_ms() == now_ms - g0.clock.current_ms()
            &&& g1.clock.start_ms() == g0.clock.start_ms()
            &&& g1.current_level == g0.current_level
            &&& g1.decor_inst == g0.decor_inst
            &&& g1.entts_inst == g0.entts_inst
        },
{
    match gg {
        None => Err(uninit()),
        Some(g) => {
            g.clock.advance(now_ms);
            Ok(())
        },
    }
}

/// Starts a frame at `now_ms`: the clock moves on; the application then
/// updates and draws the instances.
pub fn run(gg: &mut Option<GameGod>, now_ms: u128) -> (res: Result<(), NUError>)
    requires
        *old(gg) is Some ==> now_ms >= (*old(gg))->0.clock.current_ms(),
    ensures
        *old(gg) is None ==> res is Err && is_misc_error(res->Err_0, "GAME_GOD uninit"@)
            && *final(gg) == *old(gg),
        *old(gg) is Some ==> res is Ok && *final(gg) is Some && {
            let g0 = (*old(gg))->0;
            let g1 = (*final(gg))->0;
            &&& g1.clock.current_ms() == now_ms
            &&& g1.clock.delta_ms() == now_ms - g0.clock.current_ms()
            &&& g1.clock.start_ms() == g0.clock.start_ms()
            &&& g1.current_level == g0.current_level
            &&& g1.decor_inst == g0.decor_inst
            &&& g1.entts_inst == g0.entts_inst
        },
{
    update_time(gg, now_ms)
}

/// The `id`-th decoration model of the current level.
pub fn get_ref_decor(gg: &Option<GameGod>, id: usize) -> (res: Result<LoadedDecorReference, NUError>)
    ensures
        *gg is None ==> res is Err && is_misc_error(res->Err_0, "GAME_GOD uninit"@),
        *gg is Some && gg->0.current_level is None ==> res is Err && is_misc_error(
            res->Err_0,
            "level not set"@,
        ),
        *gg is Some && gg->0.current_level is Some ==> {
            let refs = gg->0.current_level->0.ref_decor@;
            &&& id >= refs.len() ==> res is Err && is_misc_error(
                res->Err_0,
                "id exceeds ref_decor len"@,
            )
            &&& id < refs.len() ==> res == Ok::<LoadedDecorReference, NUError>(refs[id as int])
        },
{
    match gg {
        None => Err(uninit()),
        Some(g) => match &g.current_level {
            None => Err(NUError::misc("level not set")),
            Some(level) => {
                if id >= level.ref_decor.len() {
                    return Err(NUError::misc("id exceeds ref_decor len"));
                }
                Ok(level.ref_decor[id])
            },
        },
    }
}

/// A copy of the `id`-th entity model of the current level.
pub fn get_ref_entity(gg: &Option<GameGod>, id: usize) -> (res: Result<LoadedEnttReference, NUError>)
    ensures
        *gg is None ==> res is Err && is_misc_error(res->Err_0, "GAME_GOD uninit"@),
        *gg is Some && gg->0.current_level is None ==> res is Err && is_misc_error(
            res->Err_0,
            "level not set"@,
        ),
        *gg is Some && gg->0.current_level is Some ==> {
            let refs = gg->0.current_level->0.ref_entities@;
            &&& id >= refs.len() ==> res is Err && is_misc_error(
                res->Err_0,
                "id exceeds ref_entts len"@,
            )
            &&& id < refs.len() ==> res is Ok && res->Ok_0@ == refs[id as int]@
        },
{
    match gg {
        None => Err(uninit()),
        Some(g) => match &g.current_level {
            None => Err(NUError::misc("level not set")),
            Some(level) => {
                if id >= level.ref_entities.len() {
                    return Err(NUError::misc("id exceeds ref_entts len"));
                }
                Ok(level.ref_entities[id].clone())
            },
        },
    }
}

/// Each entity name of this format makes its own kind of instance, and no
/// other name makes one: the spinning cylinder, lights, the player and the
/// four menu letters; the level change trigger makes none. Only "floor"
/// makes a decoration, a floor.
pub proof fn lemma_entity_kind_names(s: Seq<char>)
    ensures
        s == "gcyl"@ ==> entity_kind_of(s) == Some(InstanceKind::EGcyl),
        s == "light"@ ==> entity_kind_of(s) == Some(InstanceKind::ELight),
        s == "player"@ ==> entity_kind_of(s) == Some(InstanceKind::EPlayer),
        s == "menu_m"@ ==> entity_kind_of(s) == Some(InstanceKind::EMenuM),
        s == "menu_e"@ ==> entity_kind_of(s) == Some(InstanceKind::EMenuE),
        s == "menu_n"@ ==> entity_kind_of(s) == Some(InstanceKind::EMenuN),
        s == "menu_u"@ ==> entity_kind_of(s) == Some(InstanceKind::EMenuU),
        entity_kind_of(s) is Some ==> s == "gcyl"@ || s == "light"@ || s == "player"@ || s == "menu_m"@ || s == "menu_e"@ || s == "menu_n"@ || s == "menu_u"@,
        s == "trigger_levelchange"@ ==> entity_kind_of(s) is None,
        s == "floor"@ ==> decor_kind_of(s) == Some(InstanceKind::DFloor),
        decor_kind_of(s) is Some ==> s == "floor"@,
{
    reveal_strlit("gcyl");
    reveal_strlit("light");
    reveal_strlit("player");
    reveal_strlit("menu_m");
    reveal_strlit("menu_e");
    reveal_strlit("menu_n");
    reveal_strlit("menu_u");
    reveal_strlit("trigger_levelchange");
    reveal_strlit("floor");
    if s == "trigger_levelchange"@ {
        assert("trigger_levelchange"@.len() != "gcyl"@.len());
        assert("trigger_levelchange"@.len() != "light"@.len());
        assert("trigger_levelchange"@.len() != "player"@.len());
        assert("trigger_levelchange"@.len() != "menu_m"@.len());
        assert("trigger_levelchange"@.len() != "menu_e"@.len());
        assert("trigger_levelchange"@.len() != "menu_n"@.len());
        assert("trigger_levelchange"@.len() != "menu_u"@.len());
    }
    if s == "gcyl"@ {
    }
    if s == "light"@ {
        assert("light"@.len() != "gcyl"@.len());
    }
    if s == "player"@ {
        assert("player"@.len() != "gcyl"@.len());
        assert("player"@.len() != "light"@.len());
    }
    if s == "menu_m"@ {
        assert("menu_m"@.len() != "gcyl"@.len());
        assert("menu_m"@.len() != "light"@.len());
        assert("menu_m"@[0] != "player"@[0]);
    }
    if s == "menu_e"@ {
        assert("menu_e"@.len() != "gcyl"@.len());
        assert("menu_e"@.len() != "light"@.len());
        assert("menu_e"@[0] != "player"@[0]);
        assert("menu_e"@[5] != "menu_m"@[5]);
    }
    if s == "menu_n"@ {
        assert("menu_n"@.len() != "gcyl"@.len());
        assert("menu_n"@.len() != "light"@.len());
        assert("menu_n"@[0] != "player"@[0]);
        assert("menu_n"@[5] != "menu_m"@[5]);
        assert("menu_n"@[5] != "menu_e"@[5]);
    }
    if s == "menu_u"@ {
        assert("menu_u"@.len() != "gcyl"@.len());
        assert("menu_u"@.len() != "light"@.len());
        assert("menu_u"@[0] != "player"@[0]);
        assert("menu_u"@[5] != "menu_m"@[5]);
        assert("menu_u"@[5] != "menu_e"@[5]);
        assert("menu_u"@[5] != "menu_n"@[5]);
    }
}

/// The model name of the `k`-th placed entity of `l`.
pub open spec fn level_entity_name(l: Level, k: int) -> Seq<char> {
    l.payload.ern_data@[l.map_entities@[k].index as int]@
}

/// The model name of the `k`-th placed decoration of `l`.
pub open spec fn level_decor_name(l: Level, k: int) -> Seq<char> {
    l.payload.drn_data@[l.map_decor@[k].ref_id as int]@
}

proof fn lemma_entity_spawns_facts(l: Level, n: nat)
    requires
        n <= usize::MAX,
    ensures
        forall|k: int|
            0 <= k < n && entity_kind_of(level_entity_name(l, k)) is Some ==> entity_spawns_upto(
                l,
                n,
            ).contains(
                InstanceSpawn { kind: entity_kind_of(level_entity_name(l, k))->0, entity: k as usize },
            ),
        forall|i: int|
            0 <= i < entity_spawns_upto(l, n).len() ==> (#[trigger] entity_spawns_upto(l, n)[i]).entity
                < n && Some(entity_spawns_upto(l, n)[i].kind) == entity_kind_of(
                level_entity_name(l, entity_spawns_upto(l, n)[i].entity as int),
            ),
    decreases n,
{
    if n > 0 {
        lemma_entity_spawns_facts(l, (n - 1) as nat);
        let before = entity_spawns_upto(l, (n - 1) as nat);
        let now = entity_spawns_upto(l, n);
        assert forall|i: int| 0 <= i < before.len() implies now[i] == before[i] by {}
        assert forall|k: int|
            0 <= k < n && entity_kind_of(level_entity_name(l, k)) is Some implies now.contains(
                InstanceSpawn { kind: entity_kind_of(level_entity_name(l, k))->0, entity: k as usize },
            ) by {
            let x = InstanceSpawn { kind: entity_kind_of(level_entity_name(l, k))->0, entity: k as usize };
            if k < n - 1 {
                let j = choose|j: int| 0 <= j < before.len() && before[j] == x;
                assert(now[j] == x);
            } else {
                assert(now[now.len() - 1] == x);
            }
        }
    }
}

proof fn lemma_decor_spawns_facts(l: Level, n: nat)
    requires
        n <= usize::MAX,
    ensures
        forall|k: int|
            0 <= k < n && decor_kind_of(level_decor_name(l, k)) is Some ==> decor_spawns_upto(
                l,
                n,
            ).contains(
                InstanceSpawn { kind: decor_kind_of(level_decor_name(l, k))->0, entity: k as usize },
            ),
    decreases n,
{
    if n > 0 {
        lemma_decor_spawns_facts(l, (n - 1) as nat);
        let before = decor_spawns_upto(l, (n - 1) as nat);
        let now = decor_spawns_upto(l, n);
        assert forall|k: int|
            0 <= k < n && decor_kind_of(level_decor_name(l, k)) is Some implies now.contains(
                InstanceSpawn { kind: decor_kind_of(level_decor_name(l, k))->0, entity: k as usize },
            ) by {
            let x = InstanceSpawn { kind: decor_kind_of(level_decor_name(l, k))->0, entity: k as usize };
            if k < n - 1 {
                let j = choose|j: int| 0 <= j < before.len() && before[j] == x;
                assert(now[j] == x);
            } else {
                assert(now[now.len() - 1] == x);
            }
        }
    }
}

/// Setting a level spawns an instance for every placed entity whose model
/// name is known, of the kind that name makes, and only for such
/// entities: each entity named "light" gets a light, each named "player"
/// the player; each decoration named "floor" gets a floor.
pub proof fn lemma_level_spawns_complete(l: Level)
    requires
        l.map_entities@.len() <= usize::MAX,
        l.map_decor@.len() <= usize::MAX,
    ensures
        forall|k: int|
            0 <= k < l.map_entities@.len() && level_entity_name(l, k) == "light"@ ==> entity_spawns_upto(
                l,
                l.map_entities@.len(),
            ).contains(InstanceSpawn { kind: InstanceKind::ELight, entity: k as usize }),
        forall|k: int|
            0 <= k < l.map_entities@.len() && level_entity_name(l, k) == "player"@ ==> entity_spawns_upto(
                l,
                l.map_entities@.len(),
            ).contains(InstanceSpawn { kind: InstanceKind::EPlayer, entity: k as usize }),
        forall|k: int|
            0 <= k < l.map_entities@.len() && level_entity_name(l, k) == "gcyl"@ ==> entity_spawns_upto(
                l,
                l.map_entities@.len(),
            ).contains(InstanceSpawn { kind: InstanceKind::EGcyl, entity: k as usize }),
        forall|k: int|
            0 <= k < l.map_decor@.len() && level_decor_name(l, k) == "floor"@ ==> decor_spawns_upto(
                l,
                l.map_decor@.len(),
            ).contains(InstanceSpawn { kind: InstanceKind::DFloor, entity: k as usize }),
        forall|i: int|
            0 <= i < entity_spawns_upto(l, l.map_entities@.len()).len() ==> {
                let sp = #[trigger] entity_spawns_upto(l, l.map_entities@.len())[i];
                let name = level_entity_name(l, sp.entity as int);
                &&& sp.entity < l.map_entities@.len()
                &&& name == "gcyl"@ || name == "light"@ || name == "player"@ || name == "menu_m"@
                    || name == "menu_e"@ || name == "menu_n"@ || name == "menu_u"@
            },
{
    lemma_entity_spawns_facts(l, l.map_entities@.len());
    lemma_decor_spawns_facts(l, l.map_decor@.len());
    assert forall|k: int| 0 <= k < l.map_entities@.len() implies #[trigger] level_entity_name(l, k)
        == level_entity_name(l, k) && (level_entity_name(l, k) == "light"@ ==> entity_kind_of(
        level_entity_name(l, k),
    ) == Some(InstanceKind::ELight)) && (level_entity_name(l, k) == "player"@ ==> entity_kind_of(
        level_entity_name(l, k),
    ) == Some(InstanceKind::EPlayer)) && (level_entity_name(l, k) == "gcyl"@ ==> entity_kind_of(
        level_entity_name(l, k),
    ) == Some(InstanceKind::EGcyl)) by {
        lemma_entity_kind_names(level_entity_name(l, k));
    }
    assert forall|k: int| 0 <= k < l.map_decor@.len() implies #[trigger] level_decor_name(l, k)
        == "floor"@ ==> decor_kind_of(level_decor_name(l, k)) == Some(InstanceKind::DFloor) by {
        lemma_entity_kind_names(level_decor_name(l, k));
    }
    let sps = entity_spawns_upto(l, l.map_entities@.len());
    assert forall|i: int| 0 <= i < sps.len() implies {
        let sp = #[trigger] sps[i];
        let name = level_entity_name(l, sp.entity as int);
        &&& sp.entity < l.map_entities@.len()
        &&& name == "gcyl"@ || name == "light"@ || name == "player"@ || name == "menu_m"@ || name
            == "menu_e"@ || name == "menu_n"@ || name == "menu_u"@
    } by {
        lemma_entity_kind_names(level_entity_name(l, sps[i].entity as int));
    }
}

} // verus!
