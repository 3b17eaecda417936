//! The equipment the player can pick up: what each piece is called, its
//! icon and color on screen, the word shown when it is picked up, and the
//! model name that a pickup entity names it by.
use vstd::prelude::*;

use crate::entity_params::{
    find_first_key, first_key, first_lookup_ok, first_value, has_level, level_kvs,
};
use crate::g_game::{get_param, GameGod};
use crate::text_util::str_eq;

verus! {

/// A color of text on screen.
#[derive(Debug, Clone, Copy, PartialEq, Eq, Structural)]
pub struct FontColor {
    pub r: u8,
    pub g: u8,
    pub b: u8,
    pub a: u8,
}

/// How a piece of equipment is shown.
pub struct EquipmentDetails {
    pub name: &'static str,
    pub icon: char,
    pub action: &'static str,
    pub font_color: FontColor,
}

/// A piece of equipment.
#[derive(Debug, Clone, Copy, PartialEq, Eq, Structural)]
pub enum Equipment {
    Pistol,
    Flag,
    CandyCane,
    Wrench,
    IceCream,
    Bottle,
    Apple,
    Book,
    Knife,
    Cookie,
    Key,
    Anchor,
    Candle,
}

/// The name of a piece of equipment.
pub open spec fn equipment_name(e: Equipment) -> Seq<char> {
    match e {
        Equipment::Pistol => "pistol"@,
        Equipment::Flag => "flag"@,
        Equipment::CandyCane => "candy cane"@,
        Equipment::Wrench => "wrench"@,
        Equipment::IceCream => "ice cream"@,
        Equipment::Bottle => "bottle"@,
        Equipment::Apple => "apple"@,
        Equipment::Book => "book"@,
        Equipment::Knife => "knife"@,
        Equipment::Cookie => "cookie"@,
        Equipment::Key => "key"@,
        Equipment::Anchor => "anchor"@,
        Equipment::Candle => "candle"@,
    }
}

/// The icon of a piece of equipment, a symbol of the symbol font.
pub open spec fn equipment_icon(e: Equipment) -> char {
    match e {
        Equipment::Pistol => '\u{f0703}',
        Equipment::Flag => '\u{f024}',
        Equipment::CandyCane => '\u{ef3a}',
        Equipment::Wrench => '\u{f0ad}',
        Equipment::IceCream => '\u{ef88}',
        Equipment::Bottle => '\u{f1132}',
        Equipment::Apple => '\u{e29e}',
        Equipment::Book => '\u{ede2}',
        Equipment::Knife => '\u{f09fb}',
        Equipment::Cookie => '\u{f0198}',
        Equipment::Key => '\u{f084}',
        Equipment::Anchor => '\u{f0031}',
        Equipment::Candle => '\u{f05e2}',
    }
}

/// The word shown when a piece of equipment is picked up.
pub open spec fn equipment_action(e: Equipment) -> Seq<char> {
    match e {
        Equipment::Pistol => "ACQUIRED"@,
        Equipment::Flag => "DISCOVERED"@,
        Equipment::CandyCane => "UNEARTHED"@,
        Equipment::Wrench => "SALVAGED"@,
        Equipment::IceCream => "SWIPED"@,
        Equipment::Bottle => "SCAVENGED"@,
        Equipment::Apple => "PLUCKED"@,
        Equipment::Book => "UNCOVERED"@,
        Equipment::Knife => "RECOVERED"@,
        Equipment::Cookie => "FOUND"@,
        Equipment::Key => "OBTAINED"@,
        Equipment::Anchor => "HAULED UP"@,
        Equipment::Candle => "GRABBED"@,
    }
}

/// The text color of a piece of equipment.
pub open spec fn equipment_color(e: Equipment) -> FontColor {
    match e {
        Equipment::Pistol => FontColor { r: 196, g: 32, b: 32, a: 255 },
        Equipment::Flag => FontColor { r: 32, g: 64, b: 196, a: 255 },
        Equipment::CandyCane => FontColor { r: 240, g: 128, b: 160, a: 255 },
        Equipment::Wrench => FontColor { r: 128, g: 128, b: 144, a: 255 },
        Equipment::IceCream => FontColor { r: 240, g: 220, b: 180, a: 255 },
        Equipment::Bottle => FontColor { r: 32, g: 160, b: 64, a: 255 },
        Equipment::Apple => FontColor { r: 220, g: 40, b: 60, a: 255 },
        Equipment::Book => FontColor { r: 140, g: 90, b: 50, a: 255 },
        Equipment::Knife => FontColor { r: 200, g: 200, b: 210, a: 255 },
        Equipment::Cookie => FontColor { r: 180, g: 130, b: 80, a: 255 },
        Equipment::Key => FontColor { r: 220, g: 180, b: 32, a: 255 },
        Equipment::Anchor => FontColor { r: 80, g: 140, b: 200, a: 255 },
        Equipment::Candle => FontColor { r: 240, g: 160, b: 40, a: 255 },
    }
}

/// The model name by which a pickup entity names a piece of equipment.
pub open spec fn equipment_entity_name(e: Equipment) -> Seq<char> {
    match e {
        Equipment::Pistol => "prototype.Gun_Pistol"@,
        Equipment::Flag => "medieval.flag_blue"@,
        Equipment::CandyCane => "xmas.candycane_small"@,
        Equipment::Wrench => "tools.wrench_B"@,
        Equipment::IceCream => "restaurant.food_icecream_cone_vanilla"@,
        Equipment::Bottle => "dungeon.bottle_C_green"@,
        Equipment::Apple => "resource.Food_Apple_Red"@,
        Equipment::Book => "tools.journal_open"@,
        Equipment::Knife => "restaurant.knife"@,
        Equipment::Cookie => "xmas.cookie"@,
        Equipment::Key => "tools.key_B"@,
        Equipment::Anchor => "medieval.anchor"@,
        Equipment::Candle => "dungeon.candle_thin_lit"@,
    }
}

/// The piece of equipment that a model name names, if any.
pub open spec fn equipment_named(s: Seq<char>) -> Option<Equipment> {
    if s == "prototype.Gun_Pistol"@ {
        Some(Equipment::Pistol)
    } else if s == "medieval.flag_blue"@ {
        Some(Equipment::Flag)
    } else if s == "xmas.candycane_small"@ {
        Some(Equipment::CandyCane)
    } else if s == "tools.wrench_B"@ {
        Some(Equipment::Wrench)
    } else if s == "restaurant.food_icecream_cone_vanilla"@ {
        Some(Equipment::IceCream)
    } else if s == "dungeon.bottle_C_green"@ {
        Some(Equipment::Bottle)
    } else if s == "resource.Food_Apple_Red"@ {
        Some(Equipment::Apple)
    } else if s == "tools.journal_open"@ {
        Some(Equipment::Book)
    } else if s == "restaurant.knife"@ {
        Some(Equipment::Knife)
    } else if s == "xmas.cookie"@ {
        Some(Equipment::Cookie)
    } else if s == "tools.key_B"@ {
        Some(Equipment::Key)
    } else if s == "medieval.anchor"@ {
        Some(Equipment::Anchor)
    } else if s == "dungeon.candle_thin_lit"@ {
        Some(Equipment::Candle)
    } else {
        None
    }
}

impl Equipment {
    /// How this piece of equipment is shown.
    pub fn get_details(&self) -> (res: EquipmentDetails)
        ensures
            res.name@ == equipment_name(*self),
            res.icon == equipment_icon(*self),
            res.action@ == equipment_action(*self),
            res.font_color == equipment_color(*self),
    {
        match self {
            Equipment::Pistol => EquipmentDetails {
                name: "pistol",
                icon: '\u{f0703}',
                action: "ACQUIRED",
                font_color: FontColor { r: 196, g: 32, b: 32, a: 255 },
            },
            Equipment::Flag => EquipmentDetails {
                name: "flag",
                icon: '\u{f024}',
                action: "DISCOVERED",
                font_color: FontColor { r: 32, g: 64, b: 196, a: 255 },
            },
            Equipment::CandyCane => EquipmentDetails {
                name: "candy cane",
                icon: '\u{ef3a}',
                action: "UNEARTHED",
                font_color: FontColor { r: 240, g: 128, b: 160, a: 255 },
            },
            Equipment::Wrench => EquipmentDetails {
                name: "wrench",
                icon: '\u{f0ad}',
                action: "SALVAGED",
                font_color: FontColor { r: 128, g: 128, b: 144, a: 255 },
            },
            Equipment::IceCream => EquipmentDetails {
                name: "ice cream",
                icon: '\u{ef88}',
                action: "SWIPED",
                font_color: FontColor { r: 240, g: 220, b: 180, a: 255 },
            },
            Equipment::Bottle => EquipmentDetails {
                name: "bottle",
                icon: '\u{f1132}',
                action: "SCAVENGED",
                font_color: FontColor { r: 32, g: 160, b: 64, a: 255 },
            },
            Equipment::Apple => EquipmentDetails {
                name: "apple",
                icon: '\u{e29e}',
                action: "PLUCKED",
                font_color: FontColor { r: 220, g: 40, b: 60, a: 255 },
            },
            Equipment::Book => EquipmentDetails {
                name: "book",
                icon: '\u{ede2}',
                action: "UNCOVERED",
                font_color: FontColor { r: 140, g: 90, b: 50, a: 255 },
            },
            Equipment::Knife => EquipmentDetails {
                name: "knife",
                icon: '\u{f09fb}',
                action: "RECOVERED",
                font_color: FontColor { r: 200, g: 200, b: 210, a: 255 },
            },
            Equipment::Cookie => EquipmentDetails {
                name: "cookie",
                icon: '\u{f0198}',
                action: "FOUND",
                font_color: FontColor { r: 180, g: 130, b: 80, a: 255 },
            },
            Equipment::Key => EquipmentDetails {
                name: "key",
                icon: '\u{f084}',
                action: "OBTAINED",
                font_color: FontColor { r: 220, g: 180, b: 32, a: 255 },
            },
            Equipment::Anchor => EquipmentDetails {
                name: "anchor",
                icon: '\u{f0031}',
                action: "HAULED UP",
                font_color: FontColor { r: 80, g: 140, b: 200, a: 255 },
            },
            Equipment::Candle => EquipmentDetails {
                name: "candle",
                icon: '\u{f05e2}',
                action: "GRABBED",
                font_color: FontColor { r: 240, g: 160, b: 40, a: 255 },
            },
        }
    }

    /// The model name by which a pickup entity names this piece of
    /// equipment.
    pub fn entity_name(&self) -> (res: &'static str)
        ensures
            res@ == equipment_entity_name(*self),
    {
        match self {
            Equipment::Pistol => "prototype.Gun_Pistol",
            Equipment::Flag => "medieval.flag_blue",
            Equipment::CandyCane => "xmas.candycane_small",
            Equipment::Wrench => "tools.wrench_B",
            Equipment::IceCream => "restaurant.food_icecream_cone_vanilla",
            Equipment::Bottle => "dungeon.bottle_C_green",
            Equipment::Apple => "resource.Food_Apple_Red",
            Equipment::Book => "tools.journal_open",
            Equipment::Knife => "restaurant.knife",
            Equipment::Cookie => "xmas.cookie",
            Equipment::Key => "tools.key_B",
            Equipment::Anchor => "medieval.anchor",
            Equipment::Candle => "dungeon.candle_thin_lit",
        }
    }
}

/// The piece of equipment that the model name `s` names, if any.
pub fn equipment_from_entity_name(s: &str) -> (res: Option<Equipment>)
    ensures
        res == equipment_named(s@),
{
    if str_eq(s, "prototype.Gun_Pistol") {
        Some(Equipment::Pistol)
    } else if str_eq(s, "medieval.flag_blue") {
        Some(Equipment::Flag)
    } else if str_eq(s, "xmas.candycane_small") {
        Some(Equipment::CandyCane)
    } else if str_eq(s, "tools.wrench_B") {
        Some(Equipment::Wrench)
    } else if str_eq(s, "restaurant.food_icecream_cone_vanilla") {
        Some(Equipment::IceCream)
    } else if str_eq(s, "dungeon.bottle_C_green") {
        Some(Equipment::Bottle)
    } else if str_eq(s, "resource.Food_Apple_Red") {
        Some(Equipment::Apple)
    } else if str_eq(s, "tools.journal_open") {
        Some(Equipment::Book)
    } else if str_eq(s, "restaurant.knife") {
        Some(Equipment::Knife)
    } else if str_eq(s, "xmas.cookie") {
        Some(Equipment::Cookie)
    } else if str_eq(s, "tools.key_B") {
        Some(Equipment::Key)
    } else if str_eq(s, "medieval.anchor") {
        Some(Equipment::Anchor)
    } else if str_eq(s, "dungeon.candle_thin_lit") {
        Some(Equipment::Candle)
    } else {
        None
    }
}

/// Each piece of equipment is named by a model name of its own: reading
/// back the model name of a piece gives that piece.
pub proof fn lemma_entity_name_round_trip(e: Equipment)
    ensures
        equipment_named(equipment_entity_name(e)) == Some(e),
{
    match e {
        Equipment::Pistol => {
            reveal_strlit("prototype.Gun_Pistol");
        },
        Equipment::Flag => {
            reveal_strlit("medieval.flag_blue");
            reveal_strlit("prototype.Gun_Pistol");
            assert("medieval.flag_blue"@.len() != "prototype.Gun_Pistol"@.len());
        },
        Equipment::CandyCane => {
            reveal_strlit("xmas.candycane_small");
            reveal_strlit("prototype.Gun_Pistol");
            assert("xmas.candycane_small"@[0] != "prototype.Gun_Pistol"@[0]);
            reveal_strlit("medieval.flag_blue");
            assert("xmas.candycane_small"@.len() != "medieval.flag_blue"@.len());
        },
        Equipment::Wrench => {
            reveal_strlit("tools.wrench_B");
            reveal_strlit("prototype.Gun_Pistol");
            assert("tools.wrench_B"@.len() != "prototype.Gun_Pistol"@.len());
            reveal_strlit("medieval.flag_blue");
            assert("tools.wrench_B"@.len() != "medieval.flag_blue"@.len());
            reveal_strlit("xmas.candycane_small");
            assert("tools.wrench_B"@.len() != "xmas.candycane_small"@.len());
        },
        Equipment::IceCream => {
            reveal_strlit("restaurant.food_icecream_cone_vanilla");
            reveal_strlit("prototype.Gun_Pistol");
            assert("restaurant.food_icecream_cone_vanilla"@.len() != "prototype.Gun_Pistol"@.len());
            reveal_strlit("medieval.flag_blue");
            assert("restaurant.food_icecream_cone_vanilla"@.len() != "medieval.flag_blue"@.len());
            reveal_strlit("xmas.candycane_small");
            assert("restaurant.food_icecream_cone_vanilla"@.len() != "xmas.candycane_small"@.len());
            reveal_strlit("tools.wrench_B");
            assert("restaurant.food_icecream_cone_vanilla"@.len() != "tools.wrench_B"@.len());
        },
        Equipment::Bottle => {
            reveal_strlit("dungeon.bottle_C_green");
            reveal_strlit("prototype.Gun_Pistol");
            assert("dungeon.bottle_C_green"@.len() != "prototype.Gun_Pistol"@.len());
            reveal_strlit("medieval.flag_blue");
            assert("dungeon.bottle_C_green"@.len() != "medieval.flag_blue"@.len());
            reveal_strlit("xmas.candycane_small");
            assert("dungeon.bottle_C_green"@.len() != "xmas.candycane_small"@.len());
            reveal_strlit("tools.wrench_B");
            assert("dungeon.bottle_C_green"@.len() != "tools.wrench_B"@.len());
            reveal_strlit("restaurant.food_icecream_cone_vanilla");
            assert("dungeon.bottle_C_green"@.len() != "restaurant.food_icecream_cone_vanilla"@.len());
        },
        Equipment::Apple => {
            reveal_strlit("resource.Food_Apple_Red");
            reveal_strlit("prototype.Gun_Pistol");
            assert("resource.Food_Apple_Red"@.len() != "prototype.Gun_Pistol"@.len());
            reveal_strlit("medieval.flag_blue");
            assert("resource.Food_Apple_Red"@.len() != "medieval.flag_blue"@.len());
            reveal_strlit("xmas.candycane_small");
            assert("resource.Food_Apple_Red"@.len() != "xmas.candycane_small"@.len());
            reveal_strlit("tools.wrench_B");
            assert("resource.Food_Apple_Red"@.len() != "tools.wrench_B"@.len());
            reveal_strlit("restaurant.food_icecream_cone_vanilla");
            assert("resource.Food_Apple_Red"@.len() != "restaurant.food_icecream_cone_vanilla"@.len());
            reveal_strlit("dungeon.bottle_C_green");
            assert("resource.Food_Apple_Red"@.len() != "dungeon.bottle_C_green"@.len());
        },
        Equipment::Book => {
            reveal_strlit("tools.journal_open");
            reveal_strlit("prototype.Gun_Pistol");
            assert("tools.journal_open"@.len() != "prototype.Gun_Pistol"@.len());
            reveal_strlit("medieval.flag_blue");
            assert("tools.journal_open"@[0] != "medieval.flag_blue"@[0]);
            reveal_strlit("xmas.candycane_small");
            assert("tools.journal_open"@.len() != "xmas.candycane_small"@.len());
            reveal_strlit("tools.wrench_B");
            assert("tools.journal_open"@.len() != "tools.wrench_B"@.len());
            reveal_strlit("restaurant.food_icecream_cone_vanilla");
            assert("tools.journal_open"@.len() != "restaurant.food_icecream_cone_vanilla"@.len());
            reveal_strlit("dungeon.bottle_C_green");
            assert("tools.journal_open"@.len() != "dungeon.bottle_C_green"@.len());
            reveal_strlit("resource.Food_Apple_Red");
            assert("tools.journal_open"@.len() != "resource.Food_Apple_Red"@.len());
        },
        Equipment::Knife => {
            reveal_strlit("restaurant.knife");
            reveal_strlit("prototype.Gun_Pistol");
            assert("restaurant.knife"@.len() != "prototype.Gun_Pistol"@.len());
            reveal_strlit("medieval.flag_blue");
            assert("restaurant.knife"@.len() != "medieval.flag_blue"@.len());
            reveal_strlit("xmas.candycane_small");
            assert("restaurant.knife"@.len() != "xmas.candycane_small"@.len());
            reveal_strlit("tools.wrench_B");
            assert("restaurant.knife"@.len() != "tools.wrench_B"@.len());
            reveal_strlit("restaurant.food_icecream_cone_vanilla");
            assert("restaurant.knife"@.len() != "restaurant.food_icecream_cone_vanilla"@.len());
            reveal_strlit("dungeon.bottle_C_green");
            assert("restaurant.knife"@.len() != "dungeon.bottle_C_green"@.len());
            reveal_strlit("resource.Food_Apple_Red");
            assert("restaurant.knife"@.len() != "resource.Food_Apple_Red"@.len());
            reveal_strlit("tools.journal_open");
            assert("restaurant.knife"@.len() != "tools.journal_open"@.len());
        },
        Equipment::Cookie => {
            reveal_strlit("xmas.cookie");
            reveal_strlit("prototype.Gun_Pistol");
            assert("xmas.cookie"@.len() != "prototype.Gun_Pistol"@.len());
            reveal_strlit("medieval.flag_blue");
            assert("xmas.cookie"@.len() != "medieval.flag_blue"@.len());
            reveal_strlit("xmas.candycane_small");
            assert("xmas.cookie"@.len() != "xmas.candycane_small"@.len());
            reveal_strlit("tools.wrench_B");
            assert("xmas.cookie"@.len() != "tools.wrench_B"@.len());
            reveal_strlit("restaurant.food_icecream_cone_vanilla");
            assert("xmas.cookie"@.len() != "restaurant.food_icecream_cone_vanilla"@.len());
            reveal_strlit("dungeon.bottle_C_green");
            assert("xmas.cookie"@.len() != "dungeon.bottle_C_green"@.len());
            reveal_strlit("resource.Food_Apple_Red");
            assert("xmas.cookie"@.len() != "resource.Food_Apple_Red"@.len());
            reveal_strlit("tools.journal_open");
            assert("xmas.cookie"@.len() != "tools.journal_open"@.len());
            reveal_strlit("restaurant.knife");
            assert("xmas.cookie"@.len() != "restaurant.knife"@.len());
        },
        Equipment::Key => {
            reveal_strlit("tools.key_B");
            reveal_strlit("prototype.Gun_Pistol");
            assert("tools.key_B"@.len() != "prototype.Gun_Pistol"@.len());
            reveal_strlit("medieval.flag_blue");
            assert("tools.key_B"@.len() != "medieval.flag_blue"@.len());
            reveal_strlit("xmas.candycane_small");
            assert("tools.key_B"@.len() != "xmas.candycane_small"@.len());
            reveal_strlit("tools.wrench_B");
            assert("tools.key_B"@.len() != "tools.wrench_B"@.len());
            reveal_strlit("restaurant.food_icecream_cone_vanilla");
            assert("tools.key_B"@.len() != "restaurant.food_icecream_cone_vanilla"@.len());
            reveal_strlit("dungeon.bottle_C_green");
            assert("tools.key_B"@.len() != "dungeon.bottle_C_green"@.len());
            reveal_strlit("resource.Food_Apple_Red");
            assert("tools.key_B"@.len() != "resource.Food_Apple_Red"@.len());
            reveal_strlit("tools.journal_open");
            assert("tools.key_B"@.len() != "tools.journal_open"@.len());
            reveal_strlit("restaurant.knife");
            assert("tools.key_B"@.len() != "restaurant.knife"@.len());
            reveal_strlit("xmas.cookie");
            assert("tools.key_B"@[0] != "xmas.cookie"@[0]);
        },
        Equipment::Anchor => {
            reveal_strlit("medieval.anchor");
            reveal_strlit("prototype.Gun_Pistol");
            assert("medieval.anchor"@.len() != "prototype.Gun_Pistol"@.len());
            reveal_strlit("medieval.flag_blue");
            assert("medieval.anchor"@.len() != "medieval.flag_blue"@.len());
            reveal_strlit("xmas.candycane_small");
            assert("medieval.anchor"@.len() != "xmas.candycane_small"@.len());
            reveal_strlit("tools.wrench_B");
            assert("medieval.anchor"@.len() != "tools.wrench_B"@.len());
            reveal_strlit("restaurant.food_icecream_cone_vanilla");
            assert("medieval.anchor"@.len() != "restaurant.food_icecream_cone_vanilla"@.len());
            reveal_strlit("dungeon.bottle_C_green");
            assert("medieval.anchor"@.len() != "dungeon.bottle_C_green"@.len());
            reveal_strlit("resource.Food_Apple_Red");
            assert("medieval.anchor"@.len() != "resource.Food_Apple_Red"@.len());
            reveal_strlit("tools.journal_open");
            assert("medieval.anchor"@.len() != "tools.journal_open"@.len());
            reveal_strlit("restaurant.knife");
            assert("medieval.anchor"@.len() != "restaurant.knife"@.len());
            reveal_strlit("xmas.cookie");
            assert("medieval.anchor"@.len() != "xmas.cookie"@.len());
            reveal_strlit("tools.key_B");
            assert("medieval.anchor"@.len() != "tools.key_B"@.len());
        },
        Equipment::Candle => {
            reveal_strlit("dungeon.candle_thin_lit");
            reveal_strlit("prototype.Gun_Pistol");
            assert("dungeon.candle_thin_lit"@.len() != "prototype.Gun_Pistol"@.len());
            reveal_strlit("medieval.flag_blue");
            assert("dungeon.candle_thin_lit"@.len() != "medieval.flag_blue"@.len());
            reveal_strlit("xmas.candycane_small");
            assert("dungeon.candle_thin_lit"@.len() != "xmas.candycane_small"@.len());
            reveal_strlit("tools.wrench_B");
            assert("dungeon.candle_thin_lit"@.len() != "tools.wrench_B"@.len());
            reveal_strlit("restaurant.food_icecream_cone_vanilla");
            assert("dungeon.candle_thin_lit"@.len() != "restaurant.food_icecream_cone_vanilla"@.len());
            reveal_strlit("dungeon.bottle_C_green");
            assert("dungeon.candle_thin_lit"@.len() != "dungeon.bottle_C_green"@.len());
            reveal_strlit("resource.Food_Apple_Red");
            assert("dungeon.candle_thin_lit"@[0] != "resource.Food_Apple_Red"@[0]);
            reveal_strlit("tools.journal_open");
            assert("dungeon.candle_thin_lit"@.len() != "tools.journal_open"@.len());
            reveal_strlit("restaurant.knife");
            assert("dungeon.candle_thin_lit"@.len() != "restaurant.knife"@.len());
            reveal_strlit("xmas.cookie");
            assert("dungeon.candle_thin_lit"@.len() != "xmas.cookie"@.len());
            reveal_strlit("tools.key_B");
            assert("dungeon.candle_thin_lit"@.len() != "tools.key_B"@.len());
            reveal_strlit("medieval.anchor");
            assert("dungeon.candle_thin_lit"@.len() != "medieval.anchor"@.len());
        },
    }
}

/// Whether the parameters of a pickup entity name its equipment: where a
/// "_decor" parameter comes first, its value is one of the model names.
pub open spec fn pickup_params_ok(kvs: Seq<Seq<char>>, params: Seq<u32>) -> bool {
    &&& first_lookup_ok(kvs, params, "_decor"@)
    &&& first_key(kvs, params, "_decor"@) is Some ==> equipment_named(
        first_value(kvs, params, "_decor"@),
    ) is Some
}

/// The equipment of a pickup: the one its first "_decor" parameter names,
/// or a candle.
pub open spec fn pickup_equipment_of(kvs: Seq<Seq<char>>, params: Seq<u32>) -> Equipment {
    if first_key(kvs, params, "_decor"@) is Some {
        equipment_named(first_value(kvs, params, "_decor"@))->0
    } else {
        Equipment::Candle
    }
}

/// The equipment of a pickup entity with parameters `params`.
pub fn pickup_equipment(gg: &Option<GameGod>, params: &Vec<u32>) -> (res: Equipment)
    requires
        has_level(*gg),
        pickup_params_ok(level_kvs(gg->0), params@),
    ensures
        res == pickup_equipment_of(level_kvs(gg->0), params@),
{
    match find_first_key(gg, params, "_decor") {
        Some(i) => {
            assert(first_lookup_ok(level_kvs(gg->0), params@, "_decor"@));
            let n = params.len();
            assert(i + 1 < n);
            let value = get_param(gg, params[i + 1] as usize).unwrap();
            equipment_from_entity_name(value).unwrap()
        },
        None => Equipment::Candle,
    }
}

/// Different pieces of equipment have different model names, and different
/// names on screen.
pub proof fn lemma_equipment_names_distinct(a: Equipment, b: Equipment)
    ensures
        equipment_entity_name(a) == equipment_entity_name(b) ==> a == b,
        equipment_name(a) == equipment_name(b) ==> a == b,
{
    lemma_entity_name_round_trip(a);
    lemma_entity_name_round_trip(b);
    reveal_strlit("pistol");
    reveal_strlit("flag");
    reveal_strlit("candy cane");
    reveal_strlit("wrench");
    reveal_strlit("ice cream");
    reveal_strlit("bottle");
    reveal_strlit("apple");
    reveal_strlit("book");
    reveal_strlit("knife");
    reveal_strlit("cookie");
    reveal_strlit("key");
    reveal_strlit("anchor");
    reveal_strlit("candle");
    match (a, b) {
        (Equipment::Pistol, Equipment::Flag) | (Equipment::Flag, Equipment::Pistol) => {
            assert("pistol"@.len() != "flag"@.len());
        },
        (Equipment::Pistol, Equipment::CandyCane) | (Equipment::CandyCane, Equipment::Pistol) => {
            assert("pistol"@.len() != "candy cane"@.len());
        },
        (Equipment::Pistol, Equipment::Wrench) | (Equipment::Wrench, Equipment::Pistol) => {
            assert("pistol"@[0] != "wrench"@[0]);
        },
        (Equipment::Pistol, Equipment::IceCream) | (Equipment::IceCream, Equipment::Pistol) => {
            assert("pistol"@.len() != "ice cream"@.len());
        },
        (Equipment::Pistol, Equipment::Bottle) | (Equipment::Bottle, Equipment::Pistol) => {
            assert("pistol"@[0] != "bottle"@[0]);
        },
        (Equipment::Pistol, Equipment::Apple) | (Equipment::Apple, Equipment::Pistol) => {
            assert("pistol"@.len() != "apple"@.len());
        },
        (Equipment::Pistol, Equipment::Book) | (Equipment::Book, Equipment::Pistol) => {
            assert("pistol"@.len() != "book"@.len());
        },
        (Equipment::Pistol, Equipment::Knife) | (Equipment::Knife, Equipment::Pistol) => {
            assert("pistol"@.len() != "knife"@.len());
        },
        (Equipment::Pistol, Equipment::Cookie) | (Equipment::Cookie, Equipment::Pistol) => {
            assert("pistol"@[0] != "cookie"@[0]);
        },
        (Equipment::Pistol, Equipment::Key) | (Equipment::Key, Equipment::Pistol) => {
            assert("pistol"@.len() != "key"@.len());
        },
        (Equipment::Pistol, Equipment::Anchor) | (Equipment::Anchor, Equipment::Pistol) => {
            assert("pistol"@[0] != "anchor"@[0]);
        },
        (Equipment::Pistol, Equipment::Candle) | (Equipment::Candle, Equipment::Pistol) => {
            assert("pistol"@[0] != "candle"@[0]);
        },
        (Equipment::Flag, Equipment::CandyCane) | (Equipment::CandyCane, Equipment::Flag) => {
            assert("flag"@.len() != "candy cane"@.len());
        },
        (Equipment::Flag, Equipment::Wrench) | (Equipment::Wrench, Equipment::Flag) => {
            assert("flag"@.len() != "wrench"@.len());
        },
        (Equipment::Flag, Equipment::IceCream) | (Equipment::IceCream, Equipment::Flag) => {
            assert("flag"@.len() != "ice cream"@.len());
        },
        (Equipment::Flag, Equipment::Bottle) | (Equipment::Bottle, Equipment::Flag) => {
            assert("flag"@.len() != "bottle"@.len());
        },
        (Equipment::Flag, Equipment::Apple) | (Equipment::Apple, Equipment::Flag) => {
            assert("flag"@.len() != "apple"@.len());
        },
        (Equipment::Flag, Equipment::Book) | (Equipment::Book, Equipment::Flag) => {
            assert("flag"@[0] != "book"@[0]);
        },
        (Equipment::Flag, Equipment::Knife) | (Equipment::Knife, Equipment::Flag) => {
            assert("flag"@.len() != "knife"@.len());
        },
        (Equipment::Flag, Equipment::Cookie) | (Equipment::Cookie, Equipment::Flag) => {
            assert("flag"@.len() != "cookie"@.len());
        },
        (Equipment::Flag, Equipment::Key) | (Equipment::Key, Equipment::Flag) => {
            assert("flag"@.len() != "key"@.len());
        },
        (Equipment::Flag, Equipment::Anchor) | (Equipment::Anchor, Equipment::Flag) => {
            assert("flag"@.len() != "anchor"@.len());
        },
        (Equipment::Flag, Equipment::Candle) | (Equipment::Candle, Equipment::Flag) => {
            assert("flag"@.len() != "candle"@.len());
        },
        (Equipment::CandyCane, Equipment::Wrench) | (Equipment::Wrench, Equipment::CandyCane) => {
            assert("candy cane"@.len() != "wrench"@.len());
        },
        (Equipment::CandyCane, Equipment::IceCream) | (Equipment::IceCream, Equipment::CandyCane) => {
            assert("candy cane"@.len() != "ice cream"@.len());
        },
        (Equipment::CandyCane, Equipment::Bottle) | (Equipment::Bottle, Equipment::CandyCane) => {
            assert("candy cane"@.len() != "bottle"@.len());
        },
        (Equipment::CandyCane, Equipment::Apple) | (Equipment::Apple, Equipment::CandyCane) => {
            assert("candy cane"@.len() != "apple"@.len());
        },
        (Equipment::CandyCane, Equipment::Book) | (Equipment::Book, Equipment::CandyCane) => {
            assert("candy cane"@.len() != "book"@.len());
        },
        (Equipment::CandyCane, Equipment::Knife) | (Equipment::Knife, Equipment::CandyCane) => {
            assert("candy cane"@.len() != "knife"@.len());
        },
        (Equipment::CandyCane, Equipment::Cookie) | (Equipment::Cookie, Equipment::CandyCane) => {
            assert("candy cane"@.len() != "cookie"@.len());
        },
        (Equipment::CandyCane, Equipment::Key) | (Equipment::Key, Equipment::CandyCane) => {
            assert("candy cane"@.len() != "key"@.len());
        },
        (Equipment::CandyCane, Equipment::Anchor) | (Equipment::Anchor, Equipment::CandyCane) => {
            assert("candy cane"@.len() != "anchor"@.len());
        },
        (Equipment::CandyCane, Equipment::Candle) | (Equipment::Candle, Equipment::CandyCane) => {
            assert("candy cane"@.len() != "candle"@.len());
        },
        (Equipment::Wrench, Equipment::IceCream) | (Equipment::IceCream, Equipment::Wrench) => {
            assert("wrench"@.len() != "ice cream"@.len());
        },
        (Equipment::Wrench, Equipment::Bottle) | (Equipment::Bottle, Equipment::Wrench) => {
            assert("wrench"@[0] != "bottle"@[0]);
        },
        (Equipment::Wrench, Equipment::Apple) | (Equipment::Apple, Equipment::Wrench) => {
            assert("wrench"@.len() != "apple"@.len());
        },
        (Equipment::Wrench, Equipment::Book) | (Equipment::Book, Equipment::Wrench) => {
            assert("wrench"@.len() != "book"@.len());
        },
        (Equipment::Wrench, Equipment::Knife) | (Equipment::Knife, Equipment::Wrench) => {
            assert("wrench"@.len() != "knife"@.len());
        },
        (Equipment::Wrench, Equipment::Cookie) | (Equipment::Cookie, Equipment::Wrench) => {
            assert("wrench"@[0] != "cookie"@[0]);
        },
        (Equipment::Wrench, Equipment::Key) | (Equipment::Key, Equipment::Wrench) => {
            assert("wrench"@.len() != "key"@.len());
        },
        (Equipment::Wrench, Equipment::Anchor) | (Equipment::Anchor, Equipment::Wrench) => {
            assert("wrench"@[0] != "anchor"@[0]);
        },
        (Equipment::Wrench, Equipment::Candle) | (Equipment::Candle, Equipment::Wrench) => {
            assert("wrench"@[0] != "candle"@[0]);
        },
        (Equipment::IceCream, Equipment::Bottle) | (Equipment::Bottle, Equipment::IceCream) => {
            assert("ice cream"@.len() != "bottle"@.len());
        },
        (Equipment::IceCream, Equipment::Apple) | (Equipment::Apple, Equipment::IceCream) => {
            assert("ice cream"@.len() != "apple"@.len());
        },
        (Equipment::IceCream, Equipment::Book) | (Equipment::Book, Equipment::IceCream) => {
            assert("ice cream"@.len() != "book"@.len());
        },
        (Equipment::IceCream, Equipment::Knife) | (Equipment::Knife, Equipment::IceCream) => {
            assert("ice cream"@.len() != "knife"@.len());
        },
        (Equipment::IceCream, Equipment::Cookie) | (Equipment::Cookie, Equipment::IceCream) => {
            assert("ice cream"@.len() != "cookie"@.len());
        },
        (Equipment::IceCream, Equipment::Key) | (Equipment::Key, Equipment::IceCream) => {
            assert("ice cream"@.len() != "key"@.len());
        },
        (Equipment::IceCream, Equipment::Anchor) | (Equipment::Anchor, Equipment::IceCream) => {
            assert("ice cream"@.len() != "anchor"@.len());
        },
        (Equipment::IceCream, Equipment::Candle) | (Equipment::Candle, Equipment::IceCream) => {
            assert("ice cream"@.len() != "candle"@.len());
        },
        (Equipment::Bottle, Equipment::Apple) | (Equipment::Apple, Equipment::Bottle) => {
            assert("bottle"@.len() != "apple"@.len());
        },
        (Equipment::Bottle, Equipment::Book) | (Equipment::Book, Equipment::Bottle) => {
            assert("bottle"@.len() != "book"@.len());
        },
        (Equipment::Bottle, Equipment::Knife) | (Equipment::Knife, Equipment::Bottle) => {
            assert("bottle"@.len() != "knife"@.len());
        },
        (Equipment::Bottle, Equipment::Cookie) | (Equipment::Cookie, Equipment::Bottle) => {
            assert("bottle"@[0] != "cookie"@[0]);
        },
        (Equipment::Bottle, Equipment::Key) | (Equipment::Key, Equipment::Bottle) => {
            assert("bottle"@.len() != "key"@.len());
        },
        (Equipment::Bottle, Equipment::Anchor) | (Equipment::Anchor, Equipment::Bottle) => {
            assert("bottle"@[0] != "anchor"@[0]);
        },
        (Equipment::Bottle, Equipment::Candle) | (Equipment::Candle, Equipment::Bottle) => {
            assert("bottle"@[0] != "candle"@[0]);
        },
        (Equipment::Apple, Equipment::Book) | (Equipment::Book, Equipment::Apple) => {
            assert("apple"@.len() != "book"@.len());
        },
        (Equipment::Apple, Equipment::Knife) | (Equipment::Knife, Equipment::Apple) => {
            assert("apple"@[0] != "knife"@[0]);
        },
        (Equipment::Apple, Equipment::Cookie) | (Equipment::Cookie, Equipment::Apple) => {
            assert("apple"@.len() != "cookie"@.len());
        },
        (Equipment::Apple, Equipment::Key) | (Equipment::Key, Equipment::Apple) => {
            assert("apple"@.len() != "key"@.len());
        },
        (Equipment::Apple, Equipment::Anchor) | (Equipment::Anchor, Equipment::Apple) => {
            assert("apple"@.len() != "anchor"@.len());
        },
        (Equipment::Apple, Equipment::Candle) | (Equipment::Candle, Equipment::Apple) => {
            assert("apple"@.len() != "candle"@.len());
        },
        (Equipment::Book, Equipment::Knife) | (Equipment::Knife, Equipment::Book) => {
            assert("book"@.len() != "knife"@.len());
        },
        (Equipment::Book, Equipment::Cookie) | (Equipment::Cookie, Equipment::Book) => {
            assert("book"@.len() != "cookie"@.len());
        },
        (Equipment::Book, Equipment::Key) | (Equipment::Key, Equipment::Book) => {
            assert("book"@.len() != "key"@.len());
        },
        (Equipment::Book, Equipment::Anchor) | (Equipment::Anchor, Equipment::Book) => {
            assert("book"@.len() != "anchor"@.len());
        },
        (Equipment::Book, Equipment::Candle) | (Equipment::Candle, Equipment::Book) => {
            assert("book"@.len() != "candle"@.len());
        },
        (Equipment::Knife, Equipment::Cookie) | (Equipment::Cookie, Equipment::Knife) => {
            assert("knife"@.len() != "cookie"@.len());
        },
        (Equipment::Knife, Equipment::Key) | (Equipment::Key, Equipment::Knife) => {
            assert("knife"@.len() != "key"@.len());
        },
        (Equipment::Knife, Equipment::Anchor) | (Equipment::Anchor, Equipment::Knife) => {
            assert("knife"@.len() != "anchor"@.len());
        },
        (Equipment::Knife, Equipment::Candle) | (Equipment::Candle, Equipment::Knife) => {
            assert("knife"@.len() != "candle"@.len());
        },
        (Equipment::Cookie, Equipment::Key) | (Equipment::Key, Equipment::Cookie) => {
            assert("cookie"@.len() != "key"@.len());
        },
        (Equipment::Cookie, Equipment::Anchor) | (Equipment::Anchor, Equipment::Cookie) => {
            assert("cookie"@[0] != "anchor"@[0]);
        },
        (Equipment::Cookie, Equipment::Candle) | (Equipment::Candle, Equipment::Cookie) => {
            assert("cookie"@[1] != "candle"@[1]);
        },
        (Equipment::Key, Equipment::Anchor) | (Equipment::Anchor, Equipment::Key) => {
            assert("key"@.len() != "anchor"@.len());
        },
        (Equipment::Key, Equipment::Candle) | (Equipment::Candle, Equipment::Key) => {
            assert("key"@.len() != "candle"@.len());
        },
        (Equipment::Anchor, Equipment::Candle) | (Equipment::Candle, Equipment::Anchor) => {
            assert("anchor"@[0] != "candle"@[0]);
        },
        _ => {},
    }
}

/// A pickup without a "_decor" parameter holds a candle; otherwise it holds
/// the piece of equipment that the value of its first "_decor" parameter
/// names.
pub proof fn lemma_pickup_default(kvs: Seq<Seq<char>>, params: Seq<u32>)
    ensures
        first_key(kvs, params, "_decor"@) is None ==> pickup_equipment_of(kvs, params)
            == Equipment::Candle,
        first_key(kvs, params, "_decor"@) matches Some(i) ==> Some(pickup_equipment_of(kvs, params))
            == equipment_named(kvs[params[i + 1] as int]) || equipment_named(
            kvs[params[i + 1] as int],
        ) is None,
{
}
} // verus!
