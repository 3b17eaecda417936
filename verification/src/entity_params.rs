//! Reading the parameters of a placed entity. An entity's parameters are
//! positions in the current level's parameter strings, in key, value
//! order; a lookup reads the parameters one by one as keys and, where one
//! reads as the wanted key, takes the next parameter as its value.
use vstd::prelude::*;

use crate::big_buffer::strings_view;
use crate::g_game::{get_param, GameGod};
use crate::text_util::{comma_pieces, parse_u32, parse_u8, parse_unsigned_spec, split_commas, str_eq};

verus! {

/// The parameter strings of the current level of `g`.
pub open spec fn level_kvs(g: GameGod) -> Seq<Seq<char>> {
    strings_view(g.current_level->0.payload.kvs_data@)
}

/// The game has a current level, whose parameter strings the lookups read.
pub open spec fn has_level(gg: Option<GameGod>) -> bool {
    gg is Some && gg->0.current_level is Some
}

/// The position of the first of the first `n` parameters that reads as
/// `key`, if one does.
pub open spec fn first_key_upto(kvs: Seq<Seq<char>>, params: Seq<u32>, key: Seq<char>, n: nat) -> Option<
    int,
>
    decreases n,
{
    if n == 0 {
        None
    } else {
        match first_key_upto(kvs, params, key, (n - 1) as nat) {
            Some(i) => Some(i),
            None => if kvs[params[n - 1] as int] == key {
                Some(n - 1)
            } else {
                None
            },
        }
    }
}

/// The position of the first parameter that reads as `key`, if one does.
pub open spec fn first_key(kvs: Seq<Seq<char>>, params: Seq<u32>, key: Seq<char>) -> Option<int> {
    first_key_upto(kvs, params, key, params.len())
}

/// The position of the last of the first `n` parameters that reads as
/// `key`, if one does.
pub open spec fn last_key_upto(kvs: Seq<Seq<char>>, params: Seq<u32>, key: Seq<char>, n: nat) -> Option<
    int,
>
    decreases n,
{
    if n == 0 {
        None
    } else if kvs[params[n - 1] as int] == key {
        Some(n - 1)
    } else {
        last_key_upto(kvs, params, key, (n - 1) as nat)
    }
}

/// The position of the last parameter that reads as `key`, if one does.
pub open spec fn last_key(kvs: Seq<Seq<char>>, params: Seq<u32>, key: Seq<char>) -> Option<int> {
    last_key_upto(kvs, params, key, params.len())
}

/// The parameters at positions `0..=stop` are positions of parameter
/// strings.
pub open spec fn readable_through(kvs: Seq<Seq<char>>, params: Seq<u32>, stop: int) -> bool {
    forall|j: int| 0 <= j <= stop && j < params.len() ==> (#[trigger] params[j]) < kvs.len()
}

/// A search for the first parameter that reads as `key`, followed by a read
/// of its value, reads only parameter strings that exist.
pub open spec fn first_lookup_ok(kvs: Seq<Seq<char>>, params: Seq<u32>, key: Seq<char>) -> bool {
    match first_key(kvs, params, key) {
        Some(i) => readable_through(kvs, params, i) && i + 1 < params.len() && params[i + 1]
            < kvs.len(),
        None => readable_through(kvs, params, params.len() - 1),
    }
}

/// The value of the first parameter that reads as `key`; meaningful where
/// one does.
pub open spec fn first_value(kvs: Seq<Seq<char>>, params: Seq<u32>, key: Seq<char>) -> Seq<char> {
    kvs[params[first_key(kvs, params, key)->0 + 1] as int]
}

proof fn lemma_first_key_prefix(kvs: Seq<Seq<char>>, params: Seq<u32>, key: Seq<char>, i: nat, n: nat)
    requires
        i <= n,
        first_key_upto(kvs, params, key, i) is Some,
    ensures
        first_key_upto(kvs, params, key, n) == first_key_upto(kvs, params, key, i),
    decreases n - i,
{
    if i < n {
        lemma_first_key_prefix(kvs, params, key, i, (n - 1) as nat);
    }
}

proof fn lemma_first_key_bounds(kvs: Seq<Seq<char>>, params: Seq<u32>, key: Seq<char>, n: nat)
    ensures
        first_key_upto(kvs, params, key, n) matches Some(i) ==> 0 <= i < n && kvs[params[i] as int]
            == key && first_key_upto(kvs, params, key, i as nat) is None,
    decreases n,
{
    if n > 0 {
        lemma_first_key_bounds(kvs, params, key, (n - 1) as nat);
    }
}

/// The position of the first parameter that reads as `key`.
pub(crate) fn find_first_key(gg: &Option<GameGod>, params: &Vec<u32>, key: &str) -> (res: Option<usize>)
    requires
        has_level(*gg),
        first_lookup_ok(level_kvs(gg->0), params@, key@),
    ensures
        res matches Some(j) ==> first_key(level_kvs(gg->0), params@, key@) == Some(j as int),
        res is None ==> first_key(level_kvs(gg->0), params@, key@) is None,
{
    let ghost kvs = level_kvs(gg->0);
    proof {
        lemma_first_key_bounds(kvs, params@, key@, params@.len());
    }
    let n = params.len();
    let mut i: usize = 0;
    while i < n
        invariant
            has_level(*gg),
            kvs == level_kvs(gg->0),
            n == params@.len(),
            i <= n,
            first_lookup_ok(kvs, params@, key@),
            first_key_upto(kvs, params@, key@, i as nat) is None,
            first_key(kvs, params@, key@) matches Some(f) ==> kvs[params@[f] as int] == key@,
            first_key(kvs, params@, key@) matches Some(f) ==> i <= f && first_key_upto(
                kvs,
                params@,
                key@,
                f as nat,
            ) is None,
        decreases n - i,
    {
        assert(params@[i as int] < kvs.len());
        let k = get_param(gg, params[i] as usize).unwrap();
        if str_eq(k, key) {
            proof {
                lemma_first_key_prefix(kvs, params@, key@, (i + 1) as nat, n as nat);
            }
            return Some(i);
        }
        i = i + 1;
    }
    None
}

/// Whether the parameters of an entity, read against the current level,
/// give a light color: where a "color" parameter comes first, its value
/// holds at least four comma-separated numbers from 0 to 255.
pub open spec fn light_color_ok(kvs: Seq<Seq<char>>, params: Seq<u32>) -> bool {
    &&& first_lookup_ok(kvs, params, "color"@)
    &&& first_key(kvs, params, "color"@) is Some ==> {
        let pieces = comma_pieces(first_value(kvs, params, "color"@));
        &&& pieces.len() >= 4
        &&& forall|k: int| 0 <= k < 4 ==> parse_unsigned_spec(#[trigger] pieces[k], 255) is Some
    }
}

/// The color and intensity of a light: the four numbers of its first
/// "color" parameter, or red 1, green 128, blue 255 and intensity 255.
pub open spec fn light_color_of(kvs: Seq<Seq<char>>, params: Seq<u32>) -> Seq<u8> {
    if first_key(kvs, params, "color"@) is Some {
        let pieces = comma_pieces(first_value(kvs, params, "color"@));
        Seq::new(4, |k: int| parse_unsigned_spec(pieces[k], 255)->0 as u8)
    } else {
        seq![1u8, 128u8, 255u8, 255u8]
    }
}

/// The red, green, blue and intensity of a light entity with parameters
/// `params`.
pub fn light_color(gg: &Option<GameGod>, params: &Vec<u32>) -> (res: [u8; 4])
    requires
        has_level(*gg),
        light_color_ok(level_kvs(gg->0), params@),
    ensures
        res@ == light_color_of(level_kvs(gg->0), params@),
{
    let ghost kvs = level_kvs(gg->0);
    let mut rgbi: [u8; 4] = [1, 128, 255, 255];
    match find_first_key(gg, params, "color") {
        Some(i) => {
            assert(first_lookup_ok(kvs, params@, "color"@));
            assert(i + 1 < params@.len());
            let n = params.len();
            assert(i + 1 < n);
            let value = get_param(gg, params[i + 1] as usize).unwrap();
            let str_rgbi = split_commas(value);
            let ghost pieces = comma_pieces(value@);
            assert(parse_unsigned_spec(pieces[0], 255) is Some);
            assert(parse_unsigned_spec(pieces[1], 255) is Some);
            assert(parse_unsigned_spec(pieces[2], 255) is Some);
            assert(parse_unsigned_spec(pieces[3], 255) is Some);
            rgbi[0] = parse_u8(str_rgbi[0]).unwrap();
            rgbi[1] = parse_u8(str_rgbi[1]).unwrap();
            rgbi[2] = parse_u8(str_rgbi[2]).unwrap();
            rgbi[3] = parse_u8(str_rgbi[3]).unwrap();
            assert(rgbi@ =~= light_color_of(kvs, params@));
        },
        None => {
            assert(rgbi@ =~= light_color_of(kvs, params@));
        },
    }
    rgbi
}

/// The axis along which a light is set to move.
#[derive(Debug, Clone, Copy, PartialEq, Eq, Structural)]
pub enum Orientation {
    LeftRight,
    UpDown,
    BackForward,
    Unset,
}

/// The orientation an "orientation" value names.
pub open spec fn orientation_of(v: Seq<char>) -> Orientation {
    if v == "lr"@ {
        Orientation::LeftRight
    } else if v == "ud"@ {
        Orientation::UpDown
    } else if v == "bf"@ {
        Orientation::BackForward
    } else {
        Orientation::Unset
    }
}

/// Whether reading every parameter of an entity as a key, and the value of
/// each "orientation" key, reads only parameter strings that exist.
pub open spec fn light_orientation_ok(kvs: Seq<Seq<char>>, params: Seq<u32>) -> bool {
    &&& readable_through(kvs, params, params.len() - 1)
    &&& forall|i: int|
        0 <= i < params.len() && kvs[(#[trigger] params[i]) as int] == "orientation"@ ==> i + 1
            < params.len() && params[i + 1] < kvs.len()
}

/// The orientation of a light: that of its last "orientation" parameter,
/// or left to right.
pub open spec fn light_orientation_of(kvs: Seq<Seq<char>>, params: Seq<u32>) -> Orientation {
    match last_key(kvs, params, "orientation"@) {
        Some(i) => orientation_of(kvs[params[i + 1] as int]),
        None => Orientation::LeftRight,
    }
}

fn orientation_from(v: &str) -> (res: Orientation)
    ensures
        res == orientation_of(v@),
{
    if str_eq(v, "lr") {
        Orientation::LeftRight
    } else if str_eq(v, "ud") {
        Orientation::UpDown
    } else if str_eq(v, "bf") {
        Orientation::BackForward
    } else {
        Orientation::Unset
    }
}

/// The orientation of a light entity with parameters `params`.
pub fn light_orientation(gg: &Option<GameGod>, params: &Vec<u32>) -> (res: Orientation)
    requires
        has_level(*gg),
        light_orientation_ok(level_kvs(gg->0), params@),
    ensures
        res == light_orientation_of(level_kvs(gg->0), params@),
{
    let ghost kvs = level_kvs(gg->0);
    let n = params.len();
    let mut orientation = Orientation::LeftRight;
    let mut i: usize = 0;
    while i < n
        invariant
            has_level(*gg),
            kvs == level_kvs(gg->0),
            n == params@.len(),
            i <= n,
            light_orientation_ok(kvs, params@),
            orientation == match last_key_upto(kvs, params@, "orientation"@, i as nat) {
                Some(j) => orientation_of(kvs[params@[j + 1] as int]),
                None => Orientation::LeftRight,
            },
        decreases n - i,
    {
        assert(params@[i as int] < kvs.len());
        let k = get_param(gg, params[i] as usize).unwrap();
        if str_eq(k, "orientation") {
            let value = get_param(gg, params[i + 1] as usize).unwrap();
            orientation = orientation_from(value);
        }
        i = i + 1;
    }
    orientation
}

/// Whether the parameters of a barrier give its id: where an "id"
/// parameter comes first, its value is a decimal `u32`.
pub open spec fn barrier_id_ok(kvs: Seq<Seq<char>>, params: Seq<u32>) -> bool {
    &&& first_lookup_ok(kvs, params, "id"@)
    &&& first_key(kvs, params, "id"@) is Some ==> parse_unsigned_spec(
        first_value(kvs, params, "id"@),
        u32::MAX as nat,
    ) is Some
}

/// The id of a barrier: the number of its first "id" parameter, if it has
/// one.
pub open spec fn barrier_id_of(kvs: Seq<Seq<char>>, params: Seq<u32>) -> Option<u32> {
    if first_key(kvs, params, "id"@) is Some {
        Some(parse_unsigned_spec(first_value(kvs, params, "id"@), u32::MAX as nat)->0 as u32)
    } else {
        None
    }
}

/// The id of a barrier entity with parameters `params`.
pub fn barrier_id(gg: &Option<GameGod>, params: &Vec<u32>) -> (res: Option<u32>)
    requires
        has_level(*gg),
        barrier_id_ok(level_kvs(gg->0), params@),
    ensures
        res == barrier_id_of(level_kvs(gg->0), params@),
{
    match find_first_key(gg, params, "id") {
        Some(i) => {
            assert(first_lookup_ok(level_kvs(gg->0), params@, "id"@));
            assert(i + 1 < params@.len());
            let n = params.len();
            assert(i + 1 < n);
            let value = get_param(gg, params[i + 1] as usize).unwrap();
            Some(parse_u32(value).unwrap())
        },
        None => None,
    }
}

/// Each orientation value names its own axis: "lr" left to right, "ud" up
/// and down, "bf" back and forward; any other value leaves the light unset.
pub proof fn lemma_orientation_names(v: Seq<char>)
    ensures
        v == "lr"@ ==> orientation_of(v) == Orientation::LeftRight,
        v == "ud"@ ==> orientation_of(v) == Orientation::UpDown,
        v == "bf"@ ==> orientation_of(v) == Orientation::BackForward,
        !(v == "lr"@ || v == "ud"@ || v == "bf"@) ==> orientation_of(v) == Orientation::Unset,
        orientation_of(v) == Orientation::Unset ==> !(v == "lr"@ || v == "ud"@ || v == "bf"@),
{
    reveal_strlit("lr");
    reveal_strlit("ud");
    reveal_strlit("bf");
    if v == "lr"@ {
    }
    if v == "ud"@ {
        assert("ud"@[0] != "lr"@[0]);
    }
    if v == "bf"@ {
        assert("bf"@[0] != "lr"@[0]);
        assert("bf"@[0] != "ud"@[0]);
    }
}

/// A light's orientation is named by the value of its last "orientation"
/// parameter: "lr" gives left to right, "ud" up and down, "bf" back and
/// forward, any other value unset; without such a parameter the light goes
/// left to right.
pub proof fn lemma_light_orientation_by_last_value(kvs: Seq<Seq<char>>, params: Seq<u32>)
    ensures
        last_key(kvs, params, "orientation"@) is None ==> light_orientation_of(kvs, params)
            == Orientation::LeftRight,
        last_key(kvs, params, "orientation"@) matches Some(i) ==> {
            let v = kvs[params[i + 1] as int];
            &&& v == "lr"@ ==> light_orientation_of(kvs, params) == Orientation::LeftRight
            &&& v == "ud"@ ==> light_orientation_of(kvs, params) == Orientation::UpDown
            &&& v == "bf"@ ==> light_orientation_of(kvs, params) == Orientation::BackForward
            &&& !(v == "lr"@ || v == "ud"@ || v == "bf"@) ==> light_orientation_of(kvs, params)
                == Orientation::Unset
        },
{
    if let Some(i) = last_key(kvs, params, "orientation"@) {
        lemma_orientation_names(kvs[params[i + 1] as int]);
    }
}

proof fn lemma_last_key_found(kvs: Seq<Seq<char>>, params: Seq<u32>, key: Seq<char>, n: nat)
    ensures
        last_key_upto(kvs, params, key, n) matches Some(i) ==> 0 <= i < n && kvs[params[i] as int]
            == key && forall|j: int| i < j < n ==> kvs[params[j] as int] != key,
        last_key_upto(kvs, params, key, n) is None ==> forall|j: int|
            0 <= j < n ==> kvs[params[j] as int] != key,
    decreases n,
{
    if n > 0 {
        lemma_last_key_found(kvs, params, key, (n - 1) as nat);
    }
}

/// The last parameter that reads as a key is the one the lookup finds: it
/// reads as the key, and no later parameter does.
pub proof fn lemma_last_key_is_last(kvs: Seq<Seq<char>>, params: Seq<u32>, key: Seq<char>)
    ensures
        last_key(kvs, params, key) matches Some(i) ==> 0 <= i < params.len() && kvs[params[i] as int]
            == key && forall|j: int| i < j < params.len() ==> kvs[params[j] as int] != key,
        last_key(kvs, params, key) is None ==> forall|j: int|
            0 <= j < params.len() ==> kvs[params[j] as int] != key,
{
    lemma_last_key_found(kvs, params, key, params.len());
}

/// The first parameter that reads as a key is the one the lookup finds: it
/// reads as the key, and no earlier parameter does.
pub proof fn lemma_first_key_is_first(kvs: Seq<Seq<char>>, params: Seq<u32>, key: Seq<char>)
    ensures
        first_key(kvs, params, key) matches Some(i) ==> 0 <= i < params.len() && kvs[params[i] as int]
            == key && forall|j: int| 0 <= j < i ==> kvs[params[j] as int] != key,
        first_key(kvs, params, key) is None ==> forall|j: int|
            0 <= j < params.len() ==> kvs[params[j] as int] != key,
{
    lemma_first_key_found(kvs, params, key, params.len());
}

proof fn lemma_first_key_found(kvs: Seq<Seq<char>>, params: Seq<u32>, key: Seq<char>, n: nat)
    ensures
        first_key_upto(kvs, params, key, n) matches Some(i) ==> 0 <= i < n && kvs[params[i] as int]
            == key && forall|j: int| 0 <= j < i ==> kvs[params[j] as int] != key,
        first_key_upto(kvs, params, key, n) is None ==> forall|j: int|
            0 <= j < n ==> kvs[params[j] as int] != key,
    decreases n,
{
    if n > 0 {
        lemma_first_key_found(kvs, params, key, (n - 1) as nat);
    }
}

/// Without a "color" parameter a light is red 1, green 128, blue 255 at
/// intensity 255; with one, each of its four components is the number at
/// the same place in the value's comma-separated list. Without an "id"
/// parameter a barrier has no id; with one, its id is the value's number.
pub proof fn lemma_lookup_results(kvs: Seq<Seq<char>>, params: Seq<u32>)
    ensures
        first_key(kvs, params, "color"@) is None ==> light_color_of(kvs, params) == seq![
            1u8,
            128u8,
            255u8,
            255u8,
        ],
        first_key(kvs, params, "color"@) matches Some(i) ==> light_color_of(kvs, params).len() == 4
            && forall|c: int|
            0 <= c < 4 ==> #[trigger] light_color_of(kvs, params)[c] == parse_unsigned_spec(
                comma_pieces(kvs[params[i + 1] as int])[c],
                255,
            )->0 as u8,
        first_key(kvs, params, "id"@) is None ==> barrier_id_of(kvs, params) is None,
        first_key(kvs, params, "id"@) matches Some(i) ==> barrier_id_of(kvs, params) == Some(
            parse_unsigned_spec(kvs[params[i + 1] as int], u32::MAX as nat)->0 as u32,
        ),
{
}

} // verus!
