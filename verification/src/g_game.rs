//! The game state: the level being played, the level waiting to replace it,
//! the instances spawned from the level's entities, the top-level state and
//! the fonts. A new level only replaces the current one at the start of a
//! frame, outside the update of the instances.
use vstd::prelude::*;

use crate::big_buffer::strings_view;
use crate::error::{is_misc_error, NUError};
use crate::instance::{instance_from_str, instance_kind_of, InstanceKind};
use crate::map::{GameMap, LoadedEnttReference};
use crate::text_util::str_eq;

verus! {

/// Whether the game shows its menu or is being played.
#[derive(Debug, Clone, Copy, PartialEq, Eq, Structural)]
pub enum TopState {
    Menu,
    Play,
}

/// A font loaded at one size, as the text renderer hands it out.
#[derive(Debug, Clone, Copy, PartialEq, Eq, Structural)]
pub struct SizedFontHandle {
    pub h: usize,
}

/// An instance to be spawned: its kind and the placed entity of the current
/// level that it comes from.
#[derive(Debug, Clone, Copy, PartialEq, Eq, Structural)]
pub struct InstanceSpawn {
    pub kind: InstanceKind,
    pub entity: usize,
}

/// The game state.
pub struct GameGod {
    pub current_level: Option<GameMap>,
    pub next_level: Option<GameMap>,
    pub entts_inst: Vec<InstanceSpawn>,
    pub top_state: TopState,
    pub text_font_lg: Option<SizedFontHandle>,
    pub text_font_sm: Option<SizedFontHandle>,
    pub symb_font: Option<SizedFontHandle>,
}

/// The name of the model of the `k`-th placed entity of `m`.
pub open spec fn entity_name(m: GameMap, k: int) -> Seq<char> {
    m.payload.ern_data@[m.map_entities@[k].ref_id as int]@
}

/// Every placed entity of `m` names a model that `m` has a name for.
pub open spec fn names_resolve(m: GameMap) -> bool {
    forall|k: int|
        0 <= k < m.map_entities@.len() ==> (#[trigger] m.map_entities@[k]).ref_id
            < m.payload.ern_data@.len()
}

/// The instances spawned from the first `n` placed entities of `m`: one for
/// each entity whose model name the catalogue knows, in order.
pub open spec fn spawns_upto(m: GameMap, n: nat) -> Seq<InstanceSpawn>
    decreases n,
{
    if n == 0 {
        Seq::empty()
    } else {
        let before = spawns_upto(m, (n - 1) as nat);
        match instance_kind_of(entity_name(m, n - 1)) {
            Some(k) => before.push(InstanceSpawn { kind: k, entity: (n - 1) as usize }),
            None => before,
        }
    }
}

/// The instances spawned from all placed entities of `m`.
pub open spec fn level_spawns(m: GameMap) -> Seq<InstanceSpawn> {
    spawns_upto(m, m.map_entities@.len())
}

/// A new game state: in the menu, with no level and no fonts yet.
pub open spec fn fresh_game(g: GameGod) -> bool {
    &&& g.current_level is None
    &&& g.next_level is None
    &&& g.entts_inst@.len() == 0
    &&& g.top_state == TopState::Menu
    &&& g.text_font_lg is None
    &&& g.text_font_sm is None
    &&& g.symb_font is None
}

/// Creates the game state; an error if it exists already. The application
/// then loads the fonts and the menu level and hands them in.
pub fn init(gg: &mut Option<GameGod>) -> (res: Result<(), NUError>)
    ensures
        *old(gg) is Some ==> res is Err && is_misc_error(res->Err_0, "GAME_GOD already init"@)
            && *final(gg) == *old(gg),
        *old(gg) is None ==> res is Ok && *final(gg) is Some && fresh_game((*final(gg))->0),
{
    if gg.is_some() {
        return Err(NUError::misc("GAME_GOD already init"));
    }
    *gg = Some(
        GameGod {
            current_level: None,
            next_level: None,
            entts_inst: Vec::new(),
            top_state: TopState::Menu,
            text_font_lg: None,
            text_font_sm: None,
            symb_font: None,
        },
    );
    Ok(())
}

fn uninit() -> (res: NUError)
    ensures
        is_misc_error(res, "GAME_GOD uninit"@),
{
    NUError::misc("GAME_GOD uninit")
}

/// Keeps the fonts that the application loaded.
pub fn set_fonts(
    gg: &mut Option<GameGod>,
    text_font_lg: SizedFontHandle,
    text_font_sm: SizedFontHandle,
    symb_font: SizedFontHandle,
) -> (res: Result<(), NUError>)
    ensures
        *old(gg) is None ==> res is Err && is_misc_error(res->Err_0, "GAME_GOD uninit"@)
            && *final(gg) == *old(gg),
        *old(gg) is Some ==> res is Ok && *final(gg) == Some(
            GameGod {
                text_font_lg: Some(text_font_lg),
                text_font_sm: Some(text_font_sm),
                symb_font: Some(symb_font),
                ..(*old(gg))->0
            },
        ),
{
    match gg {
        None => Err(uninit()),
        Some(g) => {
            g.text_font_lg = Some(text_font_lg);
            g.text_font_sm = Some(text_font_sm);
            g.symb_font = Some(symb_font);
            Ok(())
        },
    }
}

/// The large text font; the fonts must have been set.
pub fn get_text_font_lg(gg: &Option<GameGod>) -> (res: Result<SizedFontHandle, NUError>)
    requires
        *gg is Some ==> gg->0.text_font_lg is Some,
    ensures
        *gg is None ==> res is Err && is_misc_error(res->Err_0, "GAME_GOD uninit"@),
        *gg is Some ==> res == Ok::<SizedFontHandle, NUError>(gg->0.text_font_lg->0),
{
    match gg {
        None => Err(uninit()),
        Some(g) => Ok(g.text_font_lg.unwrap()),
    }
}

/// The small text font; the fonts must have been set.
pub fn get_text_font_sm(gg: &Option<GameGod>) -> (res: Result<SizedFontHandle, NUError>)
    requires
        *gg is Some ==> gg->0.text_font_sm is Some,
    ensures
        *gg is None ==> res is Err && is_misc_error(res->Err_0, "GAME_GOD uninit"@),
        *gg is Some ==> res == Ok::<SizedFontHandle, NUError>(gg->0.text_font_sm->0),
{
    match gg {
        None => Err(uninit()),
        Some(g) => Ok(g.text_font_sm.unwrap()),
    }
}

/// The symbol font; the fonts must have been set.
pub fn get_symb_font(gg: &Option<GameGod>) -> (res: Result<SizedFontHandle, NUError>)
    requires
        *gg is Some ==> gg->0.symb_font is Some,
    ensures
        *gg is None ==> res is Err && is_misc_error(res->Err_0, "GAME_GOD uninit"@),
        *gg is Some ==> res == Ok::<SizedFontHandle, NUError>(gg->0.symb_font->0),
{
    match gg {
        None => Err(uninit()),
        Some(g) => Ok(g.symb_font.unwrap()),
    }
}

/// Whether the game is in the menu or being played.
pub fn get_state(gg: &Option<GameGod>) -> (res: Result<TopState, NUError>)
    ensures
        *gg is None ==> res is Err && is_misc_error(res->Err_0, "GAME_GOD uninit"@),
        *gg is Some ==> res == Ok::<TopState, NUError>(gg->0.top_state),
{
    match gg {
        None => Err(uninit()),
        Some(g) => Ok(g.top_state),
    }
}

/// Switches between the menu and play.
pub fn set_state(gg: &mut Option<GameGod>, ts: TopState) -> (res: Result<(), NUError>)
    ensures
        *old(gg) is None ==> res is Err && is_misc_error(res->Err_0, "GAME_GOD uninit"@)
            && *final(gg) == *old(gg),
        *old(gg) is Some ==> res is Ok && *final(gg) == Some(
            GameGod { top_state: ts, ..(*old(gg))->0 },
        ),
{
    match gg {
        None => Err(uninit()),
        Some(g) => {
            g.top_state = ts;
            Ok(())
        },
    }
}

/// Puts `level` in line to replace the current level at the start of the
/// next frame; a level already in line is dropped.
pub fn stage_level(gg: &mut Option<GameGod>, level: GameMap) -> (res: Result<(), NUError>)
    ensures
        *old(gg) is None ==> res is Err && is_misc_error(res->Err_0, "GAME_GOD uninit"@)
            && *final(gg) == *old(gg),
        *old(gg) is Some ==> res is Ok && *final(gg) == Some(
            GameGod { next_level: Some(level), ..(*old(gg))->0 },
        ),
{
    match gg {
        None => Err(uninit()),
        Some(g) => {
            g.next_level = Some(level);
            Ok(())
        },
    }
}

/// The instances that `level` spawns: one for each placed entity whose
/// model name the catalogue knows, in order.
pub fn init_level(level: &GameMap) -> (res: Vec<InstanceSpawn>)
    requires
        names_resolve(*level),
    ensures
        res@ == level_spawns(*level),
{
    let n = level.map_entities.len();
    let mut entts: Vec<InstanceSpawn> = Vec::new();
    let mut k: usize = 0;
    while k < n
        invariant
            n == level.map_entities@.len(),
            k <= n,
            names_resolve(*level),
            entts@ == spawns_upto(*level, k as nat),
        decreases n - k,
    {
        let me = &level.map_entities[k];
        assert(me.ref_id < level.payload.ern_data@.len());
        let kind = instance_from_str(level.payload.ern_data[me.ref_id].as_str());
        match kind {
            Some(kd) => {
                entts.push(InstanceSpawn { kind: kd, entity: k });
            },
            None => {},
        }
        k = k + 1;
    }
    entts
}

/// How the start of a frame changes the game state from `g0` to `g1`: a
/// level in line replaces the current level, leaves the line, and its
/// instances replace the old ones; the state and fonts stay. Without a
/// level in line nothing changes.
pub open spec fn frame_started(g0: GameGod, g1: GameGod) -> bool {
    match g0.next_level {
        None => g1 == g0,
        Some(l) => {
            &&& g1.current_level == Some(l)
            &&& g1.next_level is None
            &&& g1.entts_inst@ == level_spawns(l)
            &&& g1.top_state == g0.top_state
            &&& g1.text_font_lg == g0.text_font_lg
            &&& g1.text_font_sm == g0.text_font_sm
            &&& g1.symb_font == g0.symb_font
        },
    }
}

/// Starts a frame: swaps in the level in line, if there is one, and spawns
/// its instances. Gives whether a level was swapped in, so that the
/// application builds the new instances before it updates and draws them.
pub fn run(gg: &mut Option<GameGod>) -> (res: Result<bool, NUError>)
    requires
        *old(gg) is Some && (*old(gg))->0.next_level is Some ==> names_resolve(
            (*old(gg))->0.next_level->0,
        ),
    ensures
        *old(gg) is None ==> res is Err && is_misc_error(res->Err_0, "GAME_GOD uninit"@)
            && *final(gg) == *old(gg),
        *old(gg) is Some ==> res is Ok && res->Ok_0 == (*old(gg))->0.next_level is Some
            && *final(gg) is Some && frame_started((*old(gg))->0, (*final(gg))->0),
{
    match gg {
        None => Err(uninit()),
        Some(g) => {
            if g.next_level.is_some() {
                let next = g.next_level.take();
                let level = next.unwrap();
                let spawns = init_level(&level);
                g.current_level = Some(level);
                g.entts_inst = spawns;
                Ok(true)
            } else {
                Ok(false)
            }
        },
    }
}

/// The `id`-th parameter string of the current level.
pub fn get_param<'a>(gg: &'a Option<GameGod>, id: usize) -> (res: Result<&'a str, NUError>)
    ensures
        *gg is None ==> res is Err && is_misc_error(res->Err_0, "GAME_GOD uninit"@),
        *gg is Some && gg->0.current_level is None ==> res is Err && is_misc_error(
            res->Err_0,
            "level not set"@,
        ),
        *gg is Some && gg->0.current_level is Some ==> {
            let kvs = gg->0.current_level->0.payload.kvs_data@;
            &&& id >= kvs.len() ==> res is Err && is_misc_error(
                res->Err_0,
                "id exceeds kvs_data len"@,
            )
            &&& id < kvs.len() ==> res is Ok && res->Ok_0@ == kvs[id as int]@
        },
{
    match gg {
        None => Err(uninit()),
        Some(g) => match &g.current_level {
            None => Err(NUError::misc("level not set")),
            Some(level) => {
                if id >= level.payload.kvs_data.len() {
                    return Err(NUError::misc("id exceeds kvs_data len"));
                }
                Ok(level.payload.kvs_data[id].as_str())
            },
        },
    }
}

/// A copy of the `id`-th entity model of the current level.
pub fn get_ref_entity(gg: &Option<GameGod>, id: usize) -> (res: Result<LoadedEnttReference, NUError>)
    ensures
        *gg is None ==> res is Err && is_misc_error(res->Err_0, "GAME_GOD uninit"@),
        *gg is Some && gg->0.current_level is None ==> res is Err && is_misc_error(
            res->Err_0,
            "level not set"@,
        ),
        *gg is Some && gg->0.current_level is Some ==> {
            let refs = gg->0.current_level->0.ref_entities@;
            &&& id >= refs.len() ==> res is Err && is_misc_error(
                res->Err_0,
                "id exceeds ref_entts len"@,
            )
            &&& id < refs.len() ==> res is Ok && res->Ok_0@ == refs[id as int]@
        },
{
    match gg {
        None => Err(uninit()),
        Some(g) => match &g.current_level {
            None => Err(NUError::misc("level not set")),
            Some(level) => {
                if id >= level.ref_entities.len() {
                    return Err(NUError::misc("id exceeds ref_entts len"));
                }
                Ok(level.ref_entities[id].clone())
            },
        },
    }
}

/// The first position at which `s` occurs in `names`, if it occurs.
pub open spec fn first_position_of(names: Seq<Seq<char>>, s: Seq<char>) -> Option<int>
    decreases names.len(),
{
    if names.len() == 0 {
        None
    } else if names[0] == s {
        Some(0)
    } else {
        match first_position_of(names.drop_first(), s) {
            Some(i) => Some(i + 1),
            None => None,
        }
    }
}

/// The frame number of the frame named `s`: its first position among the
/// frame names, or 0 for a name no frame has.
pub open spec fn frame_id(names: Seq<Seq<char>>, s: Seq<char>) -> int {
    match first_position_of(names, s) {
        Some(i) => i,
        None => 0,
    }
}

proof fn lemma_first_position_step(names: Seq<Seq<char>>, s: Seq<char>, i: int)
    requires
        0 <= i < names.len(),
        first_position_of(names.take(i), s) is None,
    ensures
        names[i] == s ==> first_position_of(names.take(i + 1), s) == Some(i),
        names[i] != s ==> first_position_of(names.take(i + 1), s) is None,
    decreases i,
{
    if i > 0 {
        assert(names.take(i + 1).drop_first() =~= names.drop_first().take(i));
        assert(names.take(i).drop_first() =~= names.drop_first().take(i - 1));
        assert(names.take(i)[0] == names[0]);
        assert(names.take(i + 1)[0] == names[0]);
        lemma_first_position_step(names.drop_first(), s, i - 1);
    } else {
        assert(names.take(1).drop_first() =~= Seq::<Seq<char>>::empty());
        assert(first_position_of(Seq::<Seq<char>>::empty(), s) is None);
        assert(names.take(1)[0] == names[0]);
    }
}

proof fn lemma_first_position_prefix(names: Seq<Seq<char>>, s: Seq<char>, i: int)
    requires
        0 <= i <= names.len(),
        first_position_of(names.take(i), s) is Some,
    ensures
        first_position_of(names, s) == first_position_of(names.take(i), s),
    decreases i,
{
    if names[0] != s {
        assert(names.take(i).drop_first() =~= names.drop_first().take(i - 1));
        lemma_first_position_prefix(names.drop_first(), s, i - 1);
    }
}

/// The frame number of the frame named `frame` in `names`.
fn frame_position(names: &Vec<String>, frame: &str) -> (res: usize)
    ensures
        res == frame_id(strings_view(names@), frame@),
{
    let ghost view = strings_view(names@);
    let n = names.len();
    let mut i: usize = 0;
    while i < n
        invariant
            view == strings_view(names@),
            n == view.len(),
            i <= n,
            first_position_of(view.take(i as int), frame@) is None,
        decreases n - i,
    {
        proof {
            lemma_first_position_step(view, frame@, i as int);
        }
        if str_eq(names[i].as_str(), frame) {
            proof {
                lemma_first_position_prefix(view, frame@, (i + 1) as int);
            }
            return i;
        }
        i = i + 1;
    }
    assert(view.take(n as int) =~= view);
    0
}

/// The frame numbers of each animation's frames in an entity model: for
/// each frame name, its first position among the model's frame names, or 0
/// for a name the model lacks.
pub fn get_animation_ids(animations: &Vec<Vec<&str>>, ref_ent: &LoadedEnttReference) -> (res: Vec<
    Vec<usize>,
>)
    ensures
        res@.len() == animations@.len(),
        forall|a: int|
            0 <= a < animations@.len() ==> (#[trigger] res@[a])@.len() == animations@[a]@.len(),
        forall|a: int, f: int|
            0 <= a < animations@.len() && 0 <= f < animations@[a]@.len() ==> res@[a]@[f]
                == frame_id(ref_ent@.frame_names, animations@[a]@[f]@),
{
    let mut animation_ids: Vec<Vec<usize>> = Vec::new();
    let mut a: usize = 0;
    while a < animations.len()
        invariant
            a <= animations@.len(),
            animation_ids@.len() == a,
            forall|b: int|
                0 <= b < a ==> (#[trigger] animation_ids@[b])@.len() == animations@[b]@.len(),
            forall|b: int, f: int|
                0 <= b < a && 0 <= f < animations@[b]@.len() ==> animation_ids@[b]@[f]
                    == frame_id(ref_ent@.frame_names, animations@[b]@[f]@),
        decreases animations@.len() - a,
    {
        let animation = &animations[a];
        let mut frame_ids: Vec<usize> = Vec::new();
        let mut f: usize = 0;
        while f < animation.len()
            invariant
                f <= animation@.len(),
                frame_ids@.len() == f,
                forall|g: int|
                    0 <= g < f ==> frame_ids@[g] == frame_id(
                        ref_ent@.frame_names,
                        animation@[g]@,
                    ),
            decreases animation@.len() - f,
        {
            let id = frame_position(&ref_ent.frame_names, animation[f]);
            frame_ids.push(id);
            f = f + 1;
        }
        animation_ids.push(frame_ids);
        a = a + 1;
    }
    animation_ids
}

/// Which instances a lookup picks.
#[derive(Debug, Clone, Copy, PartialEq, Eq, Structural)]
pub enum InstanceFilter {
    Decor,
    Barrier,
    Player,
}

/// Whether an instance of kind `k` passes `f`.
pub open spec fn passes(f: InstanceFilter, k: InstanceKind) -> bool {
    match f {
        InstanceFilter::Decor => k.decor(),
        InstanceFilter::Barrier => k == InstanceKind::EBarrier,
        InstanceFilter::Player => k == InstanceKind::EPlayer,
    }
}

/// The positions, among the first `n` instances of `s`, of those that pass
/// `f`, in order.
pub open spec fn positions_passing(s: Seq<InstanceSpawn>, f: InstanceFilter, n: nat) -> Seq<usize>
    decreases n,
{
    if n == 0 {
        Seq::empty()
    } else {
        let before = positions_passing(s, f, (n - 1) as nat);
        if passes(f, s[n - 1].kind) {
            before.push((n - 1) as usize)
        } else {
            before
        }
    }
}

/// The positions of the instances of `s` that pass `f`.
pub open spec fn filtered(s: Seq<InstanceSpawn>, f: InstanceFilter) -> Seq<usize> {
    positions_passing(s, f, s.len())
}

/// No instance of `s` is the level change trigger, whose kind has no
/// answer to whether it is decoration.
pub open spec fn no_trigger(s: Seq<InstanceSpawn>) -> bool {
    forall|i: int| 0 <= i < s.len() ==> (#[trigger] s[i]).kind != InstanceKind::ETriggerLevelChange
}

fn passes_filter(f: InstanceFilter, k: InstanceKind) -> (res: bool)
    requires
        f == InstanceFilter::Decor ==> k != InstanceKind::ETriggerLevelChange,
    ensures
        res == passes(f, k),
{
    match f {
        InstanceFilter::Decor => k.is_decor(),
        InstanceFilter::Barrier => k == InstanceKind::EBarrier,
        InstanceFilter::Player => k == InstanceKind::EPlayer,
    }
}

/// The positions of the current instances that pass `f`, in order.
pub fn get_filtered_instances(gg: &Option<GameGod>, f: InstanceFilter) -> (res: Result<
    Vec<usize>,
    NUError,
>)
    requires
        *gg is Some && f == InstanceFilter::Decor ==> no_trigger(gg->0.entts_inst@),
    ensures
        *gg is None ==> res is Err && is_misc_error(res->Err_0, "GAME_GOD uninit"@),
        *gg is Some ==> res is Ok && res->Ok_0@ == filtered(gg->0.entts_inst@, f),
{
    match gg {
        None => Err(uninit()),
        Some(g) => {
            let all = &g.entts_inst;
            let mut out: Vec<usize> = Vec::new();
            let mut i: usize = 0;
            while i < all.len()
                invariant
                    i <= all@.len(),
                    f == InstanceFilter::Decor ==> no_trigger(all@),
                    out@ == positions_passing(all@, f, i as nat),
                decreases all@.len() - i,
            {
                if passes_filter(f, all[i].kind) {
                    out.push(i);
                }
                i = i + 1;
            }
            Ok(out)
        },
    }
}

/// The positions of the current decoration instances.
pub fn get_decor_instances(gg: &Option<GameGod>) -> (res: Result<Vec<usize>, NUError>)
    requires
        *gg is Some ==> no_trigger(gg->0.entts_inst@),
    ensures
        *gg is None ==> res is Err && is_misc_error(res->Err_0, "GAME_GOD uninit"@),
        *gg is Some ==> res is Ok && res->Ok_0@ == filtered(gg->0.entts_inst@, InstanceFilter::Decor),
{
    get_filtered_instances(gg, InstanceFilter::Decor)
}

/// The positions of the current barrier instances.
pub fn get_barrier_instances(gg: &Option<GameGod>) -> (res: Result<Vec<usize>, NUError>)
    ensures
        *gg is None ==> res is Err && is_misc_error(res->Err_0, "GAME_GOD uninit"@),
        *gg is Some ==> res is Ok && res->Ok_0@ == filtered(gg->0.entts_inst@, InstanceFilter::Barrier),
{
    get_filtered_instances(gg, InstanceFilter::Barrier)
}

/// The position of the one player instance; an error unless there is
/// exactly one.
pub fn get_player_instance(gg: &Option<GameGod>) -> (res: Result<usize, NUError>)
    ensures
        *gg is None ==> res is Err && is_misc_error(res->Err_0, "GAME_GOD uninit"@),
        *gg is Some ==> {
            let players = filtered(gg->0.entts_inst@, InstanceFilter::Player);
            &&& players.len() == 1 ==> res == Ok::<usize, NUError>(players[0])
            &&& players.len() != 1 ==> res is Err && is_misc_error(
                res->Err_0,
                "expected exactly one player"@,
            )
        },
{
    let insts = match get_filtered_instances(gg, InstanceFilter::Player) {
        Ok(v) => v,
        Err(e) => {
            return Err(e);
        },
    };
    if insts.len() != 1 {
        return Err(NUError::misc("expected exactly one player"));
    }
    Ok(insts[0])
}

proof fn lemma_spawns_upto_facts(m: GameMap, n: nat)
    requires
        n <= usize::MAX,
    ensures
        no_trigger(spawns_upto(m, n)),
        forall|i: int|
            0 <= i < spawns_upto(m, n).len() ==> (#[trigger] spawns_upto(m, n)[i]).entity < n
                && Some(spawns_upto(m, n)[i].kind) == instance_kind_of(
                entity_name(m, spawns_upto(m, n)[i].entity as int),
            ),
        forall|i: int, j: int|
            0 <= i < j < spawns_upto(m, n).len() ==> spawns_upto(m, n)[i].entity < spawns_upto(
                m,
                n,
            )[j].entity,
    decreases n,
{
    if n > 0 {
        lemma_spawns_upto_facts(m, (n - 1) as nat);
        crate::instance::lemma_no_trigger_kind(entity_name(m, n - 1));
        let before = spawns_upto(m, (n - 1) as nat);
        let now = spawns_upto(m, n);
        assert forall|i: int| 0 <= i < before.len() implies now[i] == before[i] by {}
    }
}

/// The instances a level spawns never include the level change trigger, so
/// the decoration lookup may always run after a level is swapped in; each
/// comes from a placed entity of the level, in the entities' order, and has
/// the kind its model name stands for.
pub proof fn lemma_level_spawns(m: GameMap)
    requires
        m.map_entities@.len() <= usize::MAX,
    ensures
        no_trigger(level_spawns(m)),
        forall|i: int|
            0 <= i < level_spawns(m).len() ==> (#[trigger] level_spawns(m)[i]).entity
                < m.map_entities@.len() && Some(level_spawns(m)[i].kind) == instance_kind_of(
                entity_name(m, level_spawns(m)[i].entity as int),
            ),
        forall|i: int, j: int|
            0 <= i < j < level_spawns(m).len() ==> level_spawns(m)[i].entity < level_spawns(
                m,
            )[j].entity,
{
    lemma_spawns_upto_facts(m, m.map_entities@.len());
}

/// A level put in line is the current level after the next frame starts,
/// the line is empty, and the instances are those the level spawns, none of
/// them the level change trigger.
pub proof fn lemma_stage_then_run(g0: GameGod, level: GameMap, g2: GameGod)
    requires
        frame_started(GameGod { next_level: Some(level), ..g0 }, g2),
        level.map_entities@.len() <= usize::MAX,
    ensures
        g2.current_level == Some(level),
        g2.next_level is None,
        g2.entts_inst@ == level_spawns(level),
        no_trigger(g2.entts_inst@),
        g2.top_state == g0.top_state,
{
    lemma_level_spawns(level);
}

/// The state that `set_state` writes is the state that `get_state` reads.
pub proof fn lemma_state_read_back(g0: GameGod, ts: TopState)
    ensures
        (GameGod { top_state: ts, ..g0 }).top_state == ts,
        (GameGod { top_state: ts, ..g0 }).current_level == g0.current_level,
{
}

proof fn lemma_positions_passing_exact(s: Seq<InstanceSpawn>, f: InstanceFilter, n: nat)
    requires
        n <= s.len(),
        n <= usize::MAX,
    ensures
        forall|i: int|
            0 <= i < n ==> (positions_passing(s, f, n).contains(i as usize) <==> passes(f, s[i].kind)),
        forall|j: int|
            0 <= j < positions_passing(s, f, n).len() ==> (#[trigger] positions_passing(s, f, n)[j])
                < n,
    decreases n,
{
    if n > 0 {
        lemma_positions_passing_exact(s, f, (n - 1) as nat);
        let before = positions_passing(s, f, (n - 1) as nat);
        let now = positions_passing(s, f, n);
        assert forall|i: int| 0 <= i < n implies (now.contains(i as usize) <==> passes(
            f,
            s[i].kind,
        )) by {
            if now.contains(i as usize) {
                let j = choose|j: int| 0 <= j < now.len() && now[j] == i as usize;
                if j < before.len() {
                    assert(before[j] == i as usize);
                    assert(before.contains(i as usize));
                }
            }
            if passes(f, s[i].kind) && i < n - 1 {
                let j = choose|j: int| 0 <= j < before.len() && before[j] == i as usize;
                assert(now[j] == i as usize);
            }
            if passes(f, s[i].kind) && i == n - 1 {
                assert(now[now.len() - 1] == i as usize);
            }
        }
    }
}

/// A lookup of the current instances gives the position of exactly those
/// that pass its filter: every decoration instance (computers, floors,
/// platforms and tables) is among the decoration instances, every barrier
/// among the barriers, every player among the players, and nothing else.
pub proof fn lemma_filtered_exact(s: Seq<InstanceSpawn>, f: InstanceFilter)
    requires
        s.len() <= usize::MAX,
    ensures
        forall|i: int| 0 <= i < s.len() ==> (filtered(s, f).contains(i as usize) <==> passes(f, s[i].kind)),
        forall|i: int|
            0 <= i < s.len() && s[i].kind == InstanceKind::DComputer ==> filtered(
                s,
                InstanceFilter::Decor,
            ).contains(i as usize),
        forall|i: int|
            0 <= i < s.len() && s[i].kind == InstanceKind::EBarrier ==> filtered(
                s,
                InstanceFilter::Barrier,
            ).contains(i as usize),
{
    lemma_positions_passing_exact(s, f, s.len());
    lemma_positions_passing_exact(s, InstanceFilter::Decor, s.len());
    lemma_positions_passing_exact(s, InstanceFilter::Barrier, s.len());
    crate::instance::lemma_decor_kinds();
}

/// The frame number of a frame name is the first position at which the
/// model has a frame of that name, or 0 where it has none.
pub proof fn lemma_frame_id(names: Seq<Seq<char>>, s: Seq<char>)
    ensures
        forall|i: int|
            0 <= i < names.len() && #[trigger] names[i] == s && (forall|j: int| 0 <= j < i ==> names[j] != s)
                ==> frame_id(names, s) == i,
        !names.contains(s) ==> frame_id(names, s) == 0,
{
    crate::asset::lemma_first_position_found(names, s);
    assert forall|i: int|
        0 <= i < names.len() && #[trigger] names[i] == s && (forall|j: int| 0 <= j < i ==> names[j] != s)
            implies frame_id(names, s) == i by {
        let k = first_position_of(names, s)->0;
        if k < i {
            assert(names[k] == s);
        }
    }
}

} // verus!
