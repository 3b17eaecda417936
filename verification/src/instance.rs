//! The entity catalogue: which kind of instance each model name of a
//! compiled map stands for. Most names are decoration models that behave as
//! computers; a few name floors, platforms, tables and the game's entities.
use vstd::prelude::*;

use crate::big_buffer::strings_view;
use crate::map::{GameMap, LoadedEnttReference};
use crate::text_util::str_eq;

verus! {

/// The kinds of instance a level holds: decorations first, then entities.
#[derive(Debug, Clone, Copy, PartialEq, Eq, Structural)]
pub enum InstanceKind {
    DComputer,
    DFloor,
    DPlatform,
    DTable,
    EBarrier,
    EGcyl,
    ELight,
    EPlayer,
    EPig,
    EMenuM,
    EMenuE,
    EMenuN,
    EMenuU,
    ETriggerLevelChange,
}

/// Whether `s` names a model of the platformer kit.
pub open spec fn is_platformer_model(s: Seq<char>) -> bool {
    ||| s == "platformer.ball"@
    ||| s == "platformer.barrier_1x1x1"@
    ||| s == "platformer.barrier_1x1x2"@
    ||| s == "platformer.barrier_1x1x4"@
    ||| s == "platformer.barrier_2x1x1"@
    ||| s == "platformer.barrier_2x1x2"@
    ||| s == "platformer.barrier_2x1x4"@
    ||| s == "platformer.barrier_3x1x1"@
    ||| s == "platformer.barrier_3x1x2"@
    ||| s == "platformer.barrier_3x1x4"@
    ||| s == "platformer.barrier_4x1x1"@
    ||| s == "platformer.barrier_4x1x2"@
    ||| s == "platformer.barrier_4x1x4"@
    ||| s == "platformer.bomb"@
    ||| s == "platformer.cannon_bullet"@
    ||| s == "platformer.chain_full"@
    ||| s == "platformer.chain_link"@
    ||| s == "platformer.chain_link_end_bottom"@
    ||| s == "platformer.chain_link_end_top"@
    ||| s == "platformer.cone"@
    ||| s == "platformer.floor_spikes_2x2x1"@
    ||| s == "platformer.floor_spikes_4x4x1"@
    ||| s == "platformer.floor_spikes_curved_4x2x2"@
    ||| s == "platformer.floor_wood_1x1"@
    ||| s == "platformer.floor_wood_2x2"@
    ||| s == "platformer.floor_wood_2x6"@
    ||| s == "platformer.floor_wood_4x4"@
    ||| s == "platformer.hammerblock"@
    ||| s == "platformer.hammerblock_spikes"@
    ||| s == "platformer.pillar_1x1x1"@
    ||| s == "platformer.pillar_1x1x2"@
    ||| s == "platformer.pillar_1x1x4"@
    ||| s == "platformer.pillar_1x1x8"@
    ||| s == "platformer.pillar_2x2x2"@
    ||| s == "platformer.pillar_2x2x4"@
    ||| s == "platformer.pillar_2x2x8"@
    ||| s == "platformer.platform_wood_1x1x1"@
    ||| s == "platformer.sawblade"@
    ||| s == "platformer.sign"@
    ||| s == "platformer.signage_arrows_left"@
    ||| s == "platformer.signage_arrows_right"@
    ||| s == "platformer.signage_finish"@
    ||| s == "platformer.signage_finish_wide"@
    ||| s == "platformer.spikeball"@
    ||| s == "platformer.spikeball_hanger"@
    ||| s == "platformer.spikeroller_horizontal"@
    ||| s == "platformer.spikeroller_vertical"@
    ||| s == "platformer.spring"@
    ||| s == "platformer.structure_A"@
    ||| s == "platformer.structure_B"@
    ||| s == "platformer.structure_C"@
    ||| s == "platformer.strut_horizontal"@
    ||| s == "platformer.strut_vertical"@
}

/// Whether `s` names a model of the blue pieces of the platformer kit.
pub open spec fn is_platformer_blue_model(s: Seq<char>) -> bool {
    ||| s == "platformer.arch_blue"@
    ||| s == "platformer.arch_tall_blue"@
    ||| s == "platformer.arch_wide_blue"@
    ||| s == "platformer.ball_blue"@
    ||| s == "platformer.barrier_1x1x1_blue"@
    ||| s == "platformer.barrier_1x1x2_blue"@
    ||| s == "platformer.barrier_1x1x4_blue"@
    ||| s == "platformer.barrier_2x1x1_blue"@
    ||| s == "platformer.barrier_2x1x2_blue"@
    ||| s == "platformer.barrier_2x1x4_blue"@
    ||| s == "platformer.barrier_3x1x1_blue"@
    ||| s == "platformer.barrier_3x1x2_blue"@
    ||| s == "platformer.barrier_3x1x4_blue"@
    ||| s == "platformer.barrier_4x1x1_blue"@
    ||| s == "platformer.barrier_4x1x2_blue"@
    ||| s == "platformer.barrier_4x1x4_blue"@
    ||| s == "platformer.bomb_A_blue"@
    ||| s == "platformer.bomb_B_blue"@
    ||| s == "platformer.bracing_large_blue"@
    ||| s == "platformer.bracing_medium_blue"@
    ||| s == "platformer.bracing_small_blue"@
    ||| s == "platformer.button_base_blue"@
    ||| s == "platformer.cannon_base_blue"@
    ||| s == "platformer.chest_blue"@
    ||| s == "platformer.chest_large_blue"@
    ||| s == "platformer.cone_blue"@
    ||| s == "platformer.conveyor_2x4x1_blue"@
    ||| s == "platformer.conveyor_2x8x1_blue"@
    ||| s == "platformer.conveyor_4x4x1_blue"@
    ||| s == "platformer.conveyor_4x8x1_blue"@
    ||| s == "platformer.diamond_blue"@
    ||| s == "platformer.flag_A_blue"@
    ||| s == "platformer.flag_B_blue"@
    ||| s == "platformer.flag_C_blue"@
    ||| s == "platformer.floor_net_2x2x1_blue"@
    ||| s == "platformer.floor_net_4x4x1_blue"@
    ||| s == "platformer.floor_spikes_trap_2x2x1_blue_empty"@
    ||| s == "platformer.floor_spikes_trap_4x4x1_blue"@
    ||| s == "platformer.floor_spikes_trap_4x4x1_blue_empty"@
    ||| s == "platformer.floor_spikes_trap_spikes_2x2x1"@
    ||| s == "platformer.floor_spikes_trap_spikes_2x2x1_blue"@
    ||| s == "platformer.floor_spikes_trap_spikes_4x4x1"@
    ||| s == "platformer.hammer_blue"@
    ||| s == "platformer.hammer_large_blue"@
    ||| s == "platformer.hammer_large_spikes_blue"@
    ||| s == "platformer.hammer_spikes_blue"@
    ||| s == "platformer.heart_blue"@
    ||| s == "platformer.hoop_angled_blue"@
    ||| s == "platformer.hoop_blue"@
    ||| s == "platformer.lever_floor_base_blue"@
    ||| s == "platformer.lever_wall_base_A_blue"@
    ||| s == "platformer.lever_wall_base_B_blue"@
    ||| s == "platformer.pipe_90_A_blue"@
    ||| s == "platformer.pipe_90_B_blue"@
    ||| s == "platformer.pipe_180_A_blue"@
    ||| s == "platformer.pipe_180_B_blue"@
    ||| s == "platformer.pipe_end_blue"@
    ||| s == "platformer.pipe_straight_A_blue"@
    ||| s == "platformer.pipe_straight_B_blue"@
    ||| s == "platformer.platform_1x1x1_blue"@
    ||| s == "platformer.platform_2x2x1_blue"@
    ||| s == "platformer.platform_2x2x2_blue"@
    ||| s == "platformer.platform_2x2x4_blue"@
    ||| s == "platformer.platform_4x2x1_blue"@
    ||| s == "platformer.platform_4x2x2_blue"@
    ||| s == "platformer.platform_4x2x4_blue"@
    ||| s == "platformer.platform_4x4x1_blue"@
    ||| s == "platformer.platform_4x4x2_blue"@
    ||| s == "platformer.platform_4x4x4_blue"@
    ||| s == "platformer.platform_6x2x1_blue"@
    ||| s == "platformer.platform_6x2x2_blue"@
    ||| s == "platformer.platform_6x2x4_blue"@
    ||| s == "platformer.platform_6x6x1_blue"@
    ||| s == "platformer.platform_6x6x2_blue"@
    ||| s == "platformer.platform_6x6x4_blue"@
    ||| s == "platformer.platform_arrow_2x2x1_blue"@
    ||| s == "platformer.platform_arrow_4x4x1_blue"@
    ||| s == "platformer.platform_decorative_1x1x1_blue"@
    ||| s == "platformer.platform_decorative_2x2x2_blue"@
    ||| s == "platformer.platform_hole_6x6x1_blue"@
    ||| s == "platformer.platform_slope_2x2x2_blue"@
    ||| s == "platformer.platform_slope_2x4x4_blue"@
    ||| s == "platformer.platform_slope_2x6x4_blue"@
    ||| s == "platformer.platform_slope_4x2x2_blue"@
    ||| s == "platformer.platform_slope_4x4x4_blue"@
    ||| s == "platformer.platform_slope_4x6x4_blue"@
    ||| s == "platformer.platform_slope_6x2x2_blue"@
    ||| s == "platformer.platform_slope_6x4x4_blue"@
    ||| s == "platformer.platform_slope_6x6x4_blue"@
    ||| s == "platformer.power_blue"@
    ||| s == "platformer.railing_corner_double_blue"@
    ||| s == "platformer.railing_corner_padded_blue"@
    ||| s == "platformer.railing_corner_single_blue"@
    ||| s == "platformer.railing_straight_double_blue"@
    ||| s == "platformer.railing_straight_padded_blue"@
    ||| s == "platformer.railing_straight_single_blue"@
    ||| s == "platformer.safetynet_2x2x1_blue"@
    ||| s == "platformer.safetynet_4x2x1_blue"@
    ||| s == "platformer.safetynet_6x2x1_blue"@
    ||| s == "platformer.saw_trap_blue"@
    ||| s == "platformer.saw_trap_double_blue"@
    ||| s == "platformer.saw_trap_long_blue"@
    ||| s == "platformer.signage_arrow_stand_blue"@
    ||| s == "platformer.signage_arrow_wall_blue"@
    ||| s == "platformer.signage_arrows_left_blue"@
    ||| s == "platformer.signage_arrows_right_blue"@
    ||| s == "platformer.spikeblock_double_horizontal_blue"@
    ||| s == "platformer.spikeblock_double_vertical_blue"@
    ||| s == "platformer.spikeblock_down_blue"@
    ||| s == "platformer.spikeblock_left_blue"@
    ||| s == "platformer.spikeblock_omni_blue"@
    ||| s == "platformer.spikeblock_quad_blue"@
    ||| s == "platformer.spikeblock_right_blue"@
    ||| s == "platformer.spikeblock_up_blue"@
    ||| s == "platformer.spring_pad_blue"@
    ||| s == "platformer.star_blue"@
    ||| s == "platformer.swiper_blue"@
    ||| s == "platformer.swiper_double_blue"@
    ||| s == "platformer.swiper_double_long_blue"@
    ||| s == "platformer.swiper_long_blue"@
    ||| s == "platformer.swiper_quad_blue"@
    ||| s == "platformer.swiper_quad_long_blue"@
}

/// Whether `s` names a model of the medieval kit.
pub open spec fn is_medieval_model(s: Seq<char>) -> bool {
    ||| s == "medieval.building_archeryrange_blue"@
    ||| s == "medieval.building_barracks_blue"@
    ||| s == "medieval.building_blacksmith_blue"@
    ||| s == "medieval.building_castle_blue"@
    ||| s == "medieval.building_church_blue"@
    ||| s == "medieval.building_docks_blue"@
    ||| s == "medieval.building_home_A_blue"@
    ||| s == "medieval.building_home_B_blue"@
    ||| s == "medieval.building_lumbermill_blue"@
    ||| s == "medieval.building_market_blue"@
    ||| s == "medieval.building_mine_blue"@
    ||| s == "medieval.building_shipyard_blue"@
    ||| s == "medieval.building_shrine_blue"@
    ||| s == "medieval.building_stables_blue"@
    ||| s == "medieval.building_tavern_blue"@
    ||| s == "medieval.building_tent_blue"@
    ||| s == "medieval.building_tower_A_blue"@
    ||| s == "medieval.building_tower_A_blue_top"@
    ||| s == "medieval.building_tower_B_blue"@
    ||| s == "medieval.building_tower_B_blue_top"@
    ||| s == "medieval.building_tower_base_blue"@
    ||| s == "medieval.building_tower_cannon_blue"@
    ||| s == "medieval.building_tower_catapult_blue"@
    ||| s == "medieval.building_townhall_blue"@
    ||| s == "medieval.building_watchtower_blue"@
    ||| s == "medieval.building_watermill_blue"@
    ||| s == "medieval.building_watermill_blue_no_wheel"@
    ||| s == "medieval.building_watermill_wheel"@
    ||| s == "medieval.building_well_blue"@
    ||| s == "medieval.building_windmill_blue"@
    ||| s == "medieval.building_windmill_bot_blue"@
    ||| s == "medieval.building_windmill_top_blue"@
    ||| s == "medieval.building_windmill_top_fan"@
    ||| s == "medieval.building_workshop_blue"@
    ||| s == "medieval.cannon_blue"@
    ||| s == "medieval.cannon_turret_blue"@
    ||| s == "medieval.catapult_arm_blue"@
    ||| s == "medieval.catapult_turret_blue"@
    ||| s == "medieval.cloud_big"@
    ||| s == "medieval.cloud_small"@
    ||| s == "medieval.hill_single_A"@
    ||| s == "medieval.hill_single_B"@
    ||| s == "medieval.hill_single_C"@
    ||| s == "medieval.hills_A"@
    ||| s == "medieval.hills_A_trees"@
    ||| s == "medieval.hills_B"@
    ||| s == "medieval.hills_B_trees"@
    ||| s == "medieval.hills_C"@
    ||| s == "medieval.hills_C_trees"@
    ||| s == "medieval.mountain_A"@
    ||| s == "medieval.mountain_A_grass"@
    ||| s == "medieval.mountain_A_grass_trees"@
    ||| s == "medieval.mountain_B"@
    ||| s == "medieval.mountain_B_grass"@
    ||| s == "medieval.mountain_B_grass_trees"@
    ||| s == "medieval.mountain_C"@
    ||| s == "medieval.mountain_C_grass"@
    ||| s == "medieval.mountain_C_grass_trees"@
    ||| s == "medieval.rock_single_A"@
    ||| s == "medieval.rock_single_B"@
    ||| s == "medieval.rock_single_C"@
    ||| s == "medieval.rock_single_D"@
    ||| s == "medieval.rock_single_E"@
    ||| s == "medieval.tree_single_A"@
    ||| s == "medieval.tree_single_A_cut"@
    ||| s == "medieval.tree_single_B"@
    ||| s == "medieval.tree_single_B_cut"@
    ||| s == "medieval.trees_A_cut"@
    ||| s == "medieval.trees_A_large"@
    ||| s == "medieval.trees_A_medium"@
    ||| s == "medieval.trees_A_small"@
    ||| s == "medieval.trees_B_cut"@
    ||| s == "medieval.trees_B_large"@
    ||| s == "medieval.trees_B_medium"@
    ||| s == "medieval.trees_B_small"@
    ||| s == "medieval.waterlily_A"@
    ||| s == "medieval.waterlily_B"@
    ||| s == "medieval.waterplant_A"@
    ||| s == "medieval.waterplant_B"@
    ||| s == "medieval.waterplant_C"@
    ||| s == "medieval.anchor"@
    ||| s == "medieval.barrel"@
    ||| s == "medieval.boat"@
    ||| s == "medieval.boatrack"@
    ||| s == "medieval.bucket_arrows"@
    ||| s == "medieval.bucket_empty"@
    ||| s == "medieval.bucket_water"@
    ||| s == "medieval.cannonball_pallet"@
    ||| s == "medieval.crate_A_big"@
    ||| s == "medieval.crate_A_small"@
    ||| s == "medieval.crate_B_big"@
    ||| s == "medieval.crate_B_small"@
    ||| s == "medieval.crate_long_A"@
    ||| s == "medieval.crate_long_B"@
    ||| s == "medieval.crate_long_C"@
    ||| s == "medieval.crate_long_empty"@
    ||| s == "medieval.crate_open"@
    ||| s == "medieval.flag_blue"@
    ||| s == "medieval.flag_green"@
    ||| s == "medieval.flag_red"@
    ||| s == "medieval.flag_yellow"@
    ||| s == "medieval.haybale"@
    ||| s == "medieval.icon_combat"@
    ||| s == "medieval.icon_range"@
    ||| s == "medieval.ladder"@
    ||| s == "medieval.pallet"@
    ||| s == "medieval.resource_lumber"@
    ||| s == "medieval.resource_stone"@
    ||| s == "medieval.sack"@
    ||| s == "medieval.target"@
    ||| s == "medieval.tent"@
    ||| s == "medieval.trough"@
    ||| s == "medieval.trough_long"@
    ||| s == "medieval.weaponrack"@
    ||| s == "medieval.wheelbarrow"@
    ||| s == "medieval.hex_grass"@
    ||| s == "medieval.hex_grass_bottom"@
    ||| s == "medieval.hex_grass_sloped_high"@
    ||| s == "medieval.hex_grass_sloped_low"@
    ||| s == "medieval.hex_transition"@
    ||| s == "medieval.hex_water"@
    ||| s == "medieval.hex_coast_A"@
    ||| s == "medieval.hex_coast_B"@
    ||| s == "medieval.hex_coast_C"@
    ||| s == "medieval.hex_coast_D"@
    ||| s == "medieval.hex_coast_E"@
    ||| s == "medieval.hex_coast_A_waterless"@
    ||| s == "medieval.hex_coast_B_waterless"@
    ||| s == "medieval.hex_coast_C_waterless"@
    ||| s == "medieval.hex_coast_D_waterless"@
    ||| s == "medieval.hex_coast_E_waterless"@
    ||| s == "medieval.hex_river_A"@
    ||| s == "medieval.hex_river_A_curvy"@
    ||| s == "medieval.hex_river_B"@
    ||| s == "medieval.hex_river_C"@
    ||| s == "medieval.hex_river_crossing_A"@
    ||| s == "medieval.hex_river_crossing_B"@
    ||| s == "medieval.hex_river_D"@
    ||| s == "medieval.hex_river_E"@
    ||| s == "medieval.hex_river_F"@
    ||| s == "medieval.hex_river_G"@
    ||| s == "medieval.hex_river_H"@
    ||| s == "medieval.hex_river_I"@
    ||| s == "medieval.hex_river_J"@
    ||| s == "medieval.hex_river_K"@
    ||| s == "medieval.hex_river_L"@
    ||| s == "medieval.hex_river_A_curvy_waterless"@
    ||| s == "medieval.hex_river_A_waterless"@
    ||| s == "medieval.hex_river_B_waterless"@
    ||| s == "medieval.hex_river_C_waterless"@
    ||| s == "medieval.hex_river_crossing_A_waterless"@
    ||| s == "medieval.hex_river_crossing_B_waterless"@
    ||| s == "medieval.hex_river_D_waterless"@
    ||| s == "medieval.hex_river_E_waterless"@
    ||| s == "medieval.hex_river_F_waterless"@
    ||| s == "medieval.hex_river_G_waterless"@
    ||| s == "medieval.hex_river_H_waterless"@
    ||| s == "medieval.hex_river_I_waterless"@
    ||| s == "medieval.hex_river_J_waterless"@
    ||| s == "medieval.hex_river_K_waterless"@
    ||| s == "medieval.hex_river_L_waterless"@
    ||| s == "medieval.hex_road_A"@
    ||| s == "medieval.hex_road_A_sloped_high"@
    ||| s == "medieval.hex_road_A_sloped_low"@
    ||| s == "medieval.hex_road_B"@
    ||| s == "medieval.hex_road_C"@
    ||| s == "medieval.hex_road_D"@
    ||| s == "medieval.hex_road_E"@
    ||| s == "medieval.hex_road_F"@
    ||| s == "medieval.hex_road_G"@
    ||| s == "medieval.hex_road_H"@
    ||| s == "medieval.hex_road_I"@
    ||| s == "medieval.hex_road_J"@
    ||| s == "medieval.hex_road_K"@
    ||| s == "medieval.hex_road_L"@
    ||| s == "medieval.hex_road_M"@
    ||| s == "medieval.banner_blue_accent"@
    ||| s == "medieval.banner_blue_full"@
    ||| s == "medieval.bow_blue_accent"@
    ||| s == "medieval.bow_blue_full"@
    ||| s == "medieval.helmet_blue_accent"@
    ||| s == "medieval.helmet_blue_full"@
    ||| s == "medieval.horse_blue_accent"@
    ||| s == "medieval.horse_blue_full"@
    ||| s == "medieval.projectile_arrow_blue_accent"@
    ||| s == "medieval.projectile_arrow_blue_full"@
    ||| s == "medieval.shield_blue_accent"@
    ||| s == "medieval.shield_blue_full"@
    ||| s == "medieval.ship_blue_accent"@
    ||| s == "medieval.ship_blue_full"@
    ||| s == "medieval.spear_blue_accent"@
    ||| s == "medieval.spear_blue_full"@
    ||| s == "medieval.sword_blue_accent"@
    ||| s == "medieval.sword_blue_full"@
    ||| s == "medieval.unit_blue_accent"@
    ||| s == "medieval.unit_blue_full"@
    ||| s == "medieval.cannon_blue_accent"@
    ||| s == "medieval.cannon_blue_full"@
    ||| s == "medieval.cart_blue_accent"@
    ||| s == "medieval.cart_blue_full"@
    ||| s == "medieval.cart_merchant_blue_accent"@
    ||| s == "medieval.cart_merchant_blue_full"@
    ||| s == "medieval.catapult_blue_accent"@
    ||| s == "medieval.catapult_blue_full"@
}

/// Whether `s` names a model of the holiday kit.
pub open spec fn is_holiday_model(s: Seq<char>) -> bool {
    ||| s == "xmas.basketball"@
    ||| s == "xmas.bell"@
    ||| s == "xmas.bell_decorated"@
    ||| s == "xmas.candy_A_blue"@
    ||| s == "xmas.candy_A_green"@
    ||| s == "xmas.candy_A_pink"@
    ||| s == "xmas.candy_A_yellow"@
    ||| s == "xmas.candy_B_blue"@
    ||| s == "xmas.candy_B_green"@
    ||| s == "xmas.candy_B_pink"@
    ||| s == "xmas.candy_B_yellow"@
    ||| s == "xmas.candy_C_blue"@
    ||| s == "xmas.candy_C_green"@
    ||| s == "xmas.candy_C_pink"@
    ||| s == "xmas.candy_C_yellow"@
    ||| s == "xmas.candy_peppermint"@
    ||| s == "xmas.candycane_large"@
    ||| s == "xmas.candycane_small"@
    ||| s == "xmas.carpet_round_large"@
    ||| s == "xmas.carpet_round_small"@
    ||| s == "xmas.chair_large_blue"@
    ||| s == "xmas.chair_large_brown"@
    ||| s == "xmas.chair_large_green"@
    ||| s == "xmas.chair_large_red"@
    ||| s == "xmas.christmas_tree"@
    ||| s == "xmas.christmas_tree_base"@
    ||| s == "xmas.christmas_tree_decorated"@
    ||| s == "xmas.christmas_tree_withoutLights"@
    ||| s == "xmas.cookie"@
    ||| s == "xmas.cube_gingerbread_large_A"@
    ||| s == "xmas.cube_gingerbread_large_B"@
    ||| s == "xmas.cube_gingerbread_slope"@
    ||| s == "xmas.cube_gingerbread_small_A"@
    ||| s == "xmas.cube_gingerbread_small_B"@
    ||| s == "xmas.door_gingerbread"@
    ||| s == "xmas.floor_gingerbread_large"@
    ||| s == "xmas.floor_gingerbread_small"@
    ||| s == "xmas.football"@
    ||| s == "xmas.footstool_blue"@
    ||| s == "xmas.footstool_brown"@
    ||| s == "xmas.footstool_green"@
    ||| s == "xmas.footstool_red"@
    ||| s == "xmas.gingerbread_house"@
    ||| s == "xmas.gingerbread_house_decorated"@
    ||| s == "xmas.gingerbread_man"@
    ||| s == "xmas.hot_chocolate"@
    ||| s == "xmas.hot_chocolate_decorated"@
    ||| s == "xmas.lantern"@
    ||| s == "xmas.lantern_decorated"@
    ||| s == "xmas.lantern_mini"@
    ||| s == "xmas.milk"@
    ||| s == "xmas.mistletoe_A"@
    ||| s == "xmas.mistletoe_B"@
    ||| s == "xmas.pillar_gingerbread_large_A"@
    ||| s == "xmas.pillar_gingerbread_large_B"@
    ||| s == "xmas.pillar_gingerbread_small_A"@
    ||| s == "xmas.pillar_gingerbread_small_B"@
    ||| s == "xmas.plate_blue"@
    ||| s == "xmas.plate_decorated_A"@
    ||| s == "xmas.plate_decorated_B"@
    ||| s == "xmas.plate_red"@
    ||| s == "xmas.plate_small_blue"@
    ||| s == "xmas.plate_small_red"@
    ||| s == "xmas.plate_small_white"@
    ||| s == "xmas.plate_white"@
    ||| s == "xmas.present_A_blue"@
    ||| s == "xmas.present_A_green"@
    ||| s == "xmas.present_A_red"@
    ||| s == "xmas.present_A_white"@
    ||| s == "xmas.present_A_yellow"@
    ||| s == "xmas.present_B_blue"@
    ||| s == "xmas.present_B_green"@
    ||| s == "xmas.present_B_red"@
    ||| s == "xmas.present_B_white"@
    ||| s == "xmas.present_B_yellow"@
    ||| s == "xmas.present_C_blue"@
    ||| s == "xmas.present_C_green"@
    ||| s == "xmas.present_C_red"@
    ||| s == "xmas.present_C_white"@
    ||| s == "xmas.present_C_yellow"@
    ||| s == "xmas.present_D_blue"@
    ||| s == "xmas.present_D_green"@
    ||| s == "xmas.present_D_red"@
    ||| s == "xmas.present_D_white"@
    ||| s == "xmas.present_D_yellow"@
    ||| s == "xmas.present_E_blue"@
    ||| s == "xmas.present_E_green"@
    ||| s == "xmas.present_E_red"@
    ||| s == "xmas.present_E_white"@
    ||| s == "xmas.present_E_yellow"@
    ||| s == "xmas.present_F_blue"@
    ||| s == "xmas.present_F_green"@
    ||| s == "xmas.present_F_red"@
    ||| s == "xmas.present_F_white"@
    ||| s == "xmas.present_F_yellow"@
    ||| s == "xmas.present_sphere_A_blue"@
    ||| s == "xmas.present_sphere_A_green"@
    ||| s == "xmas.present_sphere_A_red"@
    ||| s == "xmas.present_sphere_A_white"@
    ||| s == "xmas.present_sphere_A_yellow"@
    ||| s == "xmas.present_sphere_B_blue"@
    ||| s == "xmas.present_sphere_B_green"@
    ||| s == "xmas.present_sphere_B_red"@
    ||| s == "xmas.present_sphere_B_white"@
    ||| s == "xmas.present_sphere_B_yellow"@
    ||| s == "xmas.roof_gingerbread_left"@
    ||| s == "xmas.roof_gingerbread_left_overhang"@
    ||| s == "xmas.roof_gingerbread_right"@
    ||| s == "xmas.roof_gingerbread_right"@
    ||| s == "xmas.snowball"@
    ||| s == "xmas.snowball_cannon"@
    ||| s == "xmas.snowball_pile"@
    ||| s == "xmas.snowman_A"@
    ||| s == "xmas.snowman_B"@
    ||| s == "xmas.stool"@
    ||| s == "xmas.tracks_crossing"@
    ||| s == "xmas.tracks_curve"@
    ||| s == "xmas.tracks_split_left"@
    ||| s == "xmas.tracks_split_right"@
    ||| s == "xmas.tracks_straight"@
    ||| s == "xmas.tracks_straight_station"@
    ||| s == "xmas.train_locomotive"@
    ||| s == "xmas.train_tender_coal"@
    ||| s == "xmas.train_tender_empty"@
    ||| s == "xmas.train_tender_presents_A"@
    ||| s == "xmas.train_tender_presents_B"@
    ||| s == "xmas.train_wagon"@
    ||| s == "xmas.wall_decoration_candy_A"@
    ||| s == "xmas.wall_decoration_candy_B"@
    ||| s == "xmas.wall_decoration_candy_C"@
    ||| s == "xmas.wall_gingerbread_A"@
    ||| s == "xmas.wall_gingerbread_B"@
    ||| s == "xmas.wall_gingerbread_doorway_A"@
    ||| s == "xmas.wall_gingerbread_doorway_B"@
    ||| s == "xmas.wall_gingerbread_slope"@
    ||| s == "xmas.wall_gingerbread_window_A"@
    ||| s == "xmas.wall_gingerbread_window_B"@
    ||| s == "xmas.wreath"@
    ||| s == "xmas.tracks_split_arrow"@
}

/// Whether `s` names a model of the halloween kit.
pub open spec fn is_halloween_model(s: Seq<char>) -> bool {
    ||| s == "halloween.arch"@
    ||| s == "halloween.arch_gate"@
    ||| s == "halloween.arch_gate_closed"@
    ||| s == "halloween.arch_gate_left"@
    ||| s == "halloween.arch_gate_open"@
    ||| s == "halloween.arch_gate_right"@
    ||| s == "halloween.bench"@
    ||| s == "halloween.bench_decorated"@
    ||| s == "halloween.bone_A"@
    ||| s == "halloween.bone_B"@
    ||| s == "halloween.bone_C"@
    ||| s == "halloween.candle"@
    ||| s == "halloween.candle_melted"@
    ||| s == "halloween.candle_thin"@
    ||| s == "halloween.candle_triple"@
    ||| s == "halloween.candy_blue_A"@
    ||| s == "halloween.candy_blue_B"@
    ||| s == "halloween.candy_brown_A"@
    ||| s == "halloween.candy_brown_B"@
    ||| s == "halloween.candy_brown_C"@
    ||| s == "halloween.candy_bucket_A_decorated_no_handle"@
    ||| s == "halloween.candy_bucket_A_decorated_w_handle"@
    ||| s == "halloween.candy_bucket_A_no_handle"@
    ||| s == "halloween.candy_bucket_A_w_handle"@
    ||| s == "halloween.candy_bucket_B_decorated_no_handle"@
    ||| s == "halloween.candy_bucket_B_decorated_w_handle"@
    ||| s == "halloween.candy_bucket_B_no_handle"@
    ||| s == "halloween.candy_bucket_B_w_handle"@
    ||| s == "halloween.candy_green_A"@
    ||| s == "halloween.candy_green_B"@
    ||| s == "halloween.candy_green_C"@
    ||| s == "halloween.candy_orange_A"@
    ||| s == "halloween.candy_orange_B"@
    ||| s == "halloween.candy_orange_C"@
    ||| s == "halloween.candy_pink_A"@
    ||| s == "halloween.candy_pink_B"@
    ||| s == "halloween.candy_purple_A"@
    ||| s == "halloween.candy_purple_B"@
    ||| s == "halloween.candycorn"@
    ||| s == "halloween.coffin_bottom"@
    ||| s == "halloween.coffin_closed"@
    ||| s == "halloween.coffin_decorated"@
    ||| s == "halloween.coffin_top"@
    ||| s == "halloween.crypt"@
    ||| s == "halloween.fence"@
    ||| s == "halloween.fence_broken"@
    ||| s == "halloween.fence_gate_closed"@
    ||| s == "halloween.fence_gate_empty"@
    ||| s == "halloween.fence_gate_open"@
    ||| s == "halloween.fence_pillar"@
    ||| s == "halloween.fence_pillar_broken"@
    ||| s == "halloween.fence_seperate"@
    ||| s == "halloween.fence_seperate_broken"@
    ||| s == "halloween.floor_dirt"@
    ||| s == "halloween.floor_dirt_grave"@
    ||| s == "halloween.floor_dirt_small"@
    ||| s == "halloween.grave_A"@
    ||| s == "halloween.grave_A_destroyed"@
    ||| s == "halloween.grave_B"@
    ||| s == "halloween.gravemarker_A"@
    ||| s == "halloween.gravemarker_B"@
    ||| s == "halloween.gravestone"@
    ||| s == "halloween.haybale"@
    ||| s == "halloween.lantern_hanging"@
    ||| s == "halloween.lantern_standing"@
    ||| s == "halloween.lollipop_blue"@
    ||| s == "halloween.lollipop_brown"@
    ||| s == "halloween.lollipop_green"@
    ||| s == "halloween.lollipop_orange"@
    ||| s == "halloween.lollipop_pink"@
    ||| s == "halloween.lollipop_purple"@
    ||| s == "halloween.maze_short"@
    ||| s == "halloween.maze_tall"@
    ||| s == "halloween.path_A"@
    ||| s == "halloween.path_B"@
    ||| s == "halloween.path_C"@
    ||| s == "halloween.path_D"@
    ||| s == "halloween.pillar"@
    ||| s == "halloween.pitchfork"@
    ||| s == "halloween.plaque"@
    ||| s == "halloween.plaque_candles"@
    ||| s == "halloween.post"@
    ||| s == "halloween.post_lantern"@
    ||| s == "halloween.post_skull"@
    ||| s == "halloween.pumpkin_orange"@
    ||| s == "halloween.pumpkin_orange_jackolantern"@
    ||| s == "halloween.pumpkin_orange_small"@
    ||| s == "halloween.pumpkin_yellow"@
    ||| s == "halloween.pumpkin_yellow_jackolantern"@
    ||| s == "halloween.pumpkin_yellow_small"@
    ||| s == "halloween.ribcage"@
    ||| s == "halloween.scarecrow"@
    ||| s == "halloween.shrine"@
    ||| s == "halloween.shrine_candles"@
    ||| s == "halloween.sign_both"@
    ||| s == "halloween.sign_left"@
    ||| s == "halloween.sign_right"@
    ||| s == "halloween.skull"@
    ||| s == "halloween.skull_candle"@
    ||| s == "halloween.tractor"@
    ||| s == "halloween.tree_dead_large"@
    ||| s == "halloween.tree_dead_large_decorated"@
    ||| s == "halloween.tree_dead_medium"@
    ||| s == "halloween.tree_dead_small"@
    ||| s == "halloween.tree_pine_orange_large"@
    ||| s == "halloween.tree_pine_orange_medium"@
    ||| s == "halloween.tree_pine_orange_small"@
    ||| s == "halloween.tree_pine_yellow_large"@
    ||| s == "halloween.tree_pine_yellow_medium"@
    ||| s == "halloween.tree_pine_yellow_small"@
    ||| s == "halloween.wagon"@
    ||| s == "halloween.wagon_hay"@
    ||| s == "halloween.wooden_gate"@
    ||| s == "halloween.wooden_gate_halloween"@
    ||| s == "halloween.tractor_front_wheel"@
    ||| s == "halloween.tractor_rear_wheel"@
    ||| s == "halloween.tractor_steeringwheel"@
    ||| s == "halloween.wagon_wheel"@
}

/// Whether `s` names a model of the furniture kit.
pub open spec fn is_furniture_model(s: Seq<char>) -> bool {
    ||| s == "furniture.armchair"@
    ||| s == "furniture.armchair_pillows"@
    ||| s == "furniture.bed_double_A"@
    ||| s == "furniture.bed_double_B"@
    ||| s == "furniture.bed_single_A"@
    ||| s == "furniture.bed_single_B"@
    ||| s == "furniture.book_set"@
    ||| s == "furniture.book_single"@
    ||| s == "furniture.cabinet_medium"@
    ||| s == "furniture.cabinet_medium_decorated"@
    ||| s == "furniture.cabinet_small"@
    ||| s == "furniture.cabinet_small_decorated"@
    ||| s == "furniture.cactus_medium_A"@
    ||| s == "furniture.cactus_medium_B"@
    ||| s == "furniture.cactus_small_A"@
    ||| s == "furniture.cactus_small_B"@
    ||| s == "furniture.chair_A"@
    ||| s == "furniture.chair_A_wood"@
    ||| s == "furniture.chair_B"@
    ||| s == "furniture.chair_B_wood"@
    ||| s == "furniture.chair_C"@
    ||| s == "furniture.chair_desk_A"@
    ||| s == "furniture.chair_desk_B"@
    ||| s == "furniture.chair_stool"@
    ||| s == "furniture.chair_stool_wood"@
    ||| s == "furniture.couch"@
    ||| s == "furniture.couch_pillows"@
    ||| s == "furniture.cup"@
    ||| s == "furniture.cup_pencils"@
    ||| s == "furniture.desk"@
    ||| s == "furniture.desk_decorated"@
    ||| s == "furniture.desk_large"@
    ||| s == "furniture.desk_large_decorated"@
    ||| s == "furniture.gameconsole_handheld"@
    ||| s == "furniture.keyboard"@
    ||| s == "furniture.lamp_desk"@
    ||| s == "furniture.lamp_desk_headphones"@
    ||| s == "furniture.lamp_standing"@
    ||| s == "furniture.lamp_table"@
    ||| s == "furniture.monitor"@
    ||| s == "furniture.mouse"@
    ||| s == "furniture.mousepad_A"@
    ||| s == "furniture.mousepad_B"@
    ||| s == "furniture.mousepad_large_A"@
    ||| s == "furniture.mousepad_large_B"@
    ||| s == "furniture.mug_A"@
    ||| s == "furniture.mug_B"@
    ||| s == "furniture.pictureframe_large_A"@
    ||| s == "furniture.pictureframe_large_B"@
    ||| s == "furniture.pictureframe_medium"@
    ||| s == "furniture.pictureframe_small_A"@
    ||| s == "furniture.pictureframe_small_B"@
    ||| s == "furniture.pictureframe_small_C"@
    ||| s == "furniture.pictureframe_standing_A"@
    ||| s == "furniture.pictureframe_standing_B"@
    ||| s == "furniture.pillow_A"@
    ||| s == "furniture.pillow_B"@
    ||| s == "furniture.rug_oval_A"@
    ||| s == "furniture.rug_oval_B"@
    ||| s == "furniture.rug_rectangle_A"@
    ||| s == "furniture.rug_rectangle_B"@
    ||| s == "furniture.rug_rectangle_stripes_A"@
    ||| s == "furniture.rug_rectangle_stripes_B"@
    ||| s == "furniture.shelf_A_big"@
    ||| s == "furniture.shelf_A_small"@
    ||| s == "furniture.shelf_B_large"@
    ||| s == "furniture.shelf_B_large_decorated"@
    ||| s == "furniture.shelf_B_small"@
    ||| s == "furniture.shelf_B_small_decorated"@
    ||| s == "furniture.table_low"@
    ||| s == "furniture.table_low_decorated"@
    ||| s == "furniture.table_medium"@
    ||| s == "furniture.table_medium_long"@
    ||| s == "furniture.table_small"@
}

/// Whether `s` names a model of the forest kit.
pub open spec fn is_forest_model(s: Seq<char>) -> bool {
    ||| s == "forest.Bush_1_A_Color1"@
    ||| s == "forest.Bush_1_B_Color1"@
    ||| s == "forest.Bush_1_C_Color1"@
    ||| s == "forest.Bush_1_D_Color1"@
    ||| s == "forest.Bush_1_E_Color1"@
    ||| s == "forest.Bush_1_F_Color1"@
    ||| s == "forest.Bush_1_G_Color1"@
    ||| s == "forest.Bush_2_A_Color1"@
    ||| s == "forest.Bush_2_B_Color1"@
    ||| s == "forest.Bush_2_C_Color1"@
    ||| s == "forest.Bush_2_D_Color1"@
    ||| s == "forest.Bush_2_E_Color1"@
    ||| s == "forest.Bush_2_F_Color1"@
    ||| s == "forest.Bush_3_A_Color1"@
    ||| s == "forest.Bush_3_B_Color1"@
    ||| s == "forest.Bush_3_C_Color1"@
    ||| s == "forest.Bush_4_A_Color1"@
    ||| s == "forest.Bush_4_B_Color1"@
    ||| s == "forest.Bush_4_C_Color1"@
    ||| s == "forest.Bush_4_D_Color1"@
    ||| s == "forest.Bush_4_E_Color1"@
    ||| s == "forest.Bush_4_F_Color1"@
    ||| s == "forest.Grass_1_A_Color1"@
    ||| s == "forest.Grass_1_A_Singlesided_Color1"@
    ||| s == "forest.Grass_1_B_Color1"@
    ||| s == "forest.Grass_1_B_Singlesided_Color1"@
    ||| s == "forest.Grass_1_C_Color1"@
    ||| s == "forest.Grass_1_C_Singlesided_Color1"@
    ||| s == "forest.Grass_1_D_Color1"@
    ||| s == "forest.Grass_1_D_Singlesided_Color1"@
    ||| s == "forest.Grass_2_A_Color1"@
    ||| s == "forest.Grass_2_A_Singlesided_Color1"@
    ||| s == "forest.Grass_2_B_Color1"@
    ||| s == "forest.Grass_2_B_Singlesided_Color1"@
    ||| s == "forest.Grass_2_C_Color1"@
    ||| s == "forest.Grass_2_C_Singlesided_Color1"@
    ||| s == "forest.Grass_2_D_Color1"@
    ||| s == "forest.Grass_2_D_Singlesided_Color1"@
    ||| s == "forest.Hill_2x2x2_Color1"@
    ||| s == "forest.Hill_2x2x4_Color1"@
    ||| s == "forest.Hill_2x2x8_Color1"@
    ||| s == "forest.Hill_4x2x2_Color1"@
    ||| s == "forest.Hill_4x2x4_Color1"@
    ||| s == "forest.Hill_4x2x8_Color1"@
    ||| s == "forest.Hill_4x4x2_Color1"@
    ||| s == "forest.Hill_4x4x4_Color1"@
    ||| s == "forest.Hill_4x4x8_Color1"@
    ||| s == "forest.Hill_8x4x2_Color1"@
    ||| s == "forest.Hill_8x4x4_Color1"@
    ||| s == "forest.Hill_8x4x8_Color1"@
    ||| s == "forest.Hill_8x8x2_Color1"@
    ||| s == "forest.Hill_8x8x4_Color1"@
    ||| s == "forest.Hill_8x8x8_Color1"@
    ||| s == "forest.Hill_12x6x2_Color1"@
    ||| s == "forest.Hill_12x6x4_Color1"@
    ||| s == "forest.Hill_12x6x8_Color1"@
    ||| s == "forest.Hill_12x12x2_Color1"@
    ||| s == "forest.Hill_12x12x4_Color1"@
    ||| s == "forest.Hill_12x12x8_Color1"@
    ||| s == "forest.Hill_Cliff_A_InnerCorner_Color1"@
    ||| s == "forest.Hill_Cliff_A_OuterCorner_Color1"@
    ||| s == "forest.Hill_Cliff_B_Side_Color1"@
    ||| s == "forest.Hill_Cliff_C_InnerCorner_Color1"@
    ||| s == "forest.Hill_Cliff_C_OuterCorner_Color1"@
    ||| s == "forest.Hill_Cliff_D_Side_Color1"@
    ||| s == "forest.Hill_Cliff_E_Color1"@
    ||| s == "forest.Hill_Cliff_F_Side_Color1"@
    ||| s == "forest.Hill_Cliff_G_InnerCorner_Color1"@
    ||| s == "forest.Hill_Cliff_G_OuterCorner_Color1"@
    ||| s == "forest.Hill_Cliff_H_Side_Color1"@
    ||| s == "forest.Hill_Cliff_I_InnerCorner_Color1"@
    ||| s == "forest.Hill_Cliff_I_OuterCorner_Color1"@
    ||| s == "forest.Hill_Cliff_Tall_A_InnerCorner_Color1"@
    ||| s == "forest.Hill_Cliff_Tall_A_OuterCorner_Color1"@
    ||| s == "forest.Hill_Cliff_Tall_B_Side_Color1"@
    ||| s == "forest.Hill_Cliff_Tall_C_InnerCorner_Color1"@
    ||| s == "forest.Hill_Cliff_Tall_C_OuterCorner_Color1"@
    ||| s == "forest.Hill_Cliff_Tall_D_Side_Color1"@
    ||| s == "forest.Hill_Cliff_Tall_E_Color1"@
    ||| s == "forest.Hill_Cliff_Tall_F_Side_Color1"@
    ||| s == "forest.Hill_Cliff_Tall_G_InnerCorner_Color1"@
    ||| s == "forest.Hill_Cliff_Tall_G_OuterCorner_Color1"@
    ||| s == "forest.Hill_Cliff_Tall_H_Side_Color1"@
    ||| s == "forest.Hill_Cliff_Tall_I_InnerCorner_Color1"@
    ||| s == "forest.Hill_Cliff_Tall_I_OuterCorner_Color1"@
    ||| s == "forest.Hill_Top_A_InnerCorner_Color1"@
    ||| s == "forest.Hill_Top_A_OuterCorner_Color1"@
    ||| s == "forest.Hill_Top_B_Side_Color1"@
    ||| s == "forest.Hill_Top_C_InnerCorner_Color1"@
    ||| s == "forest.Hill_Top_C_OuterCorner_Color1"@
    ||| s == "forest.Hill_Top_D_Side_Color1"@
    ||| s == "forest.Hill_Top_E_Cap_Color1"@
    ||| s == "forest.Hill_Top_E_Center_Color1"@
    ||| s == "forest.Hill_Top_F_Side_Color1"@
    ||| s == "forest.Hill_Top_G_InnerCorner_Color1"@
    ||| s == "forest.Hill_Top_G_OuterCorner_Color1"@
    ||| s == "forest.Hill_Top_H_Side_Color1"@
    ||| s == "forest.Hill_Top_I_InnerCorner_Color1"@
    ||| s == "forest.Hill_Top_I_OuterCorner_Color1"@
    ||| s == "forest.Rock_1_A_Color1"@
    ||| s == "forest.Rock_1_B_Color1"@
    ||| s == "forest.Rock_1_C_Color1"@
    ||| s == "forest.Rock_1_D_Color1"@
    ||| s == "forest.Rock_1_E_Color1"@
    ||| s == "forest.Rock_1_F_Color1"@
    ||| s == "forest.Rock_1_G_Color1"@
    ||| s == "forest.Rock_1_H_Color1"@
    ||| s == "forest.Rock_1_I_Color1"@
    ||| s == "forest.Rock_1_J_Color1"@
    ||| s == "forest.Rock_1_K_Color1"@
    ||| s == "forest.Rock_1_L_Color1"@
    ||| s == "forest.Rock_1_M_Color1"@
    ||| s == "forest.Rock_1_N_Color1"@
    ||| s == "forest.Rock_1_O_Color1"@
    ||| s == "forest.Rock_1_P_Color1"@
    ||| s == "forest.Rock_1_Q_Color1"@
    ||| s == "forest.Rock_2_A_Color1"@
    ||| s == "forest.Rock_2_B_Color1"@
    ||| s == "forest.Rock_2_C_Color1"@
    ||| s == "forest.Rock_2_D_Color1"@
    ||| s == "forest.Rock_2_E_Color1"@
    ||| s == "forest.Rock_2_F_Color1"@
    ||| s == "forest.Rock_2_G_Color1"@
    ||| s == "forest.Rock_2_H_Color1"@
    ||| s == "forest.Rock_3_A_Color1"@
    ||| s == "forest.Rock_3_B_Color1"@
    ||| s == "forest.Rock_3_C_Color1"@
    ||| s == "forest.Rock_3_D_Color1"@
    ||| s == "forest.Rock_3_E_Color1"@
    ||| s == "forest.Rock_3_F_Color1"@
    ||| s == "forest.Rock_3_G_Color1"@
    ||| s == "forest.Rock_3_H_Color1"@
    ||| s == "forest.Rock_3_I_Color1"@
    ||| s == "forest.Rock_3_J_Color1"@
    ||| s == "forest.Rock_3_K_Color1"@
    ||| s == "forest.Rock_3_L_Color1"@
    ||| s == "forest.Rock_3_M_Color1"@
    ||| s == "forest.Rock_3_N_Color1"@
    ||| s == "forest.Rock_3_O_Color1"@
    ||| s == "forest.Rock_3_P_Color1"@
    ||| s == "forest.Rock_3_Q_Color1"@
    ||| s == "forest.Rock_3_R_Color1"@
    ||| s == "forest.Rock_4_A_Color1"@
    ||| s == "forest.Rock_4_B_Color1"@
    ||| s == "forest.Rock_4_C_Color1"@
    ||| s == "forest.Rock_4_D_Color1"@
    ||| s == "forest.Rock_4_E_Color1"@
    ||| s == "forest.Rock_4_F_Color1"@
    ||| s == "forest.Rock_4_G_Color1"@
    ||| s == "forest.Rock_4_H_Color1"@
    ||| s == "forest.Rock_5_A_Color1"@
    ||| s == "forest.Rock_5_B_Color1"@
    ||| s == "forest.Rock_5_C_Color1"@
    ||| s == "forest.Rock_5_D_Color1"@
    ||| s == "forest.Rock_5_E_Color1"@
    ||| s == "forest.Rock_5_F_Color1"@
    ||| s == "forest.Rock_5_G_Color1"@
    ||| s == "forest.Rock_5_H_Color1"@
    ||| s == "forest.Rock_6_A_Color1"@
    ||| s == "forest.Rock_6_B_Color1"@
    ||| s == "forest.Rock_6_C_Color1"@
    ||| s == "forest.Rock_6_D_Color1"@
    ||| s == "forest.Rock_6_E_Color1"@
    ||| s == "forest.Rock_6_F_Color1"@
    ||| s == "forest.Rock_6_G_Color1"@
    ||| s == "forest.Rock_6_H_Color1"@
    ||| s == "forest.Tree_1_A_Color1"@
    ||| s == "forest.Tree_1_B_Color1"@
    ||| s == "forest.Tree_1_C_Color1"@
    ||| s == "forest.Tree_2_A_Color1"@
    ||| s == "forest.Tree_2_B_Color1"@
    ||| s == "forest.Tree_2_C_Color1"@
    ||| s == "forest.Tree_2_D_Color1"@
    ||| s == "forest.Tree_2_E_Color1"@
    ||| s == "forest.Tree_3_A_Color1"@
    ||| s == "forest.Tree_3_B_Color1"@
    ||| s == "forest.Tree_3_C_Color1"@
    ||| s == "forest.Tree_4_A_Color1"@
    ||| s == "forest.Tree_4_B_Color1"@
    ||| s == "forest.Tree_4_C_Color1"@
    ||| s == "forest.Tree_5_A_Color1"@
    ||| s == "forest.Tree_5_B_Color1"@
    ||| s == "forest.Tree_5_C_Color1"@
    ||| s == "forest.Tree_5_D_Color1"@
    ||| s == "forest.Tree_5_E_Color1"@
    ||| s == "forest.Tree_5_F_Color1"@
    ||| s == "forest.Tree_6_A_Color1"@
    ||| s == "forest.Tree_6_B_Color1"@
    ||| s == "forest.Tree_6_C_Color1"@
    ||| s == "forest.Tree_7_A_Color1"@
    ||| s == "forest.Tree_7_B_Color1"@
    ||| s == "forest.Tree_7_C_Color1"@
    ||| s == "forest.Tree_Bare_1_A_Color1"@
    ||| s == "forest.Tree_Bare_1_B_Color1"@
    ||| s == "forest.Tree_Bare_1_C_Color1"@
    ||| s == "forest.Tree_Bare_2_A_Color1"@
    ||| s == "forest.Tree_Bare_2_B_Color1"@
    ||| s == "forest.Tree_Bare_2_C_Color1"@
}

/// Whether `s` names a model of the weapons kit.
pub open spec fn is_weapons_model(s: Seq<char>) -> bool {
    ||| s == "weapons.arrow_A"@
    ||| s == "weapons.arrow_B"@
    ||| s == "weapons.arrow_C"@
    ||| s == "weapons.axe_A"@
    ||| s == "weapons.axe_B"@
    ||| s == "weapons.axe_C"@
    ||| s == "weapons.axe_D"@
    ||| s == "weapons.bow_A"@
    ||| s == "weapons.bow_A_withString"@
    ||| s == "weapons.bow_B"@
    ||| s == "weapons.bow_B_withString"@
    ||| s == "weapons.bow_C"@
    ||| s == "weapons.bow_C_withString"@
    ||| s == "weapons.dagger_A"@
    ||| s == "weapons.dagger_B"@
    ||| s == "weapons.dagger_C"@
    ||| s == "weapons.fistweapon_A"@
    ||| s == "weapons.fistweapon_A_stacked"@
    ||| s == "weapons.fistweapon_B"@
    ||| s == "weapons.fistweapon_B_stacked"@
    ||| s == "weapons.fistweapon_C_left"@
    ||| s == "weapons.fistweapon_C_right"@
    ||| s == "weapons.fistweapon_C_stacked"@
    ||| s == "weapons.halberd"@
    ||| s == "weapons.hammer_A"@
    ||| s == "weapons.hammer_B"@
    ||| s == "weapons.hammer_C"@
    ||| s == "weapons.hammer_D"@
    ||| s == "weapons.scythe"@
    ||| s == "weapons.shield_A"@
    ||| s == "weapons.shield_B"@
    ||| s == "weapons.shield_C"@
    ||| s == "weapons.shield_D"@
    ||| s == "weapons.spear_A"@
    ||| s == "weapons.spear_B"@
    ||| s == "weapons.staff_A"@
    ||| s == "weapons.staff_B"@
    ||| s == "weapons.staff_C"@
    ||| s == "weapons.staff_D"@
    ||| s == "weapons.sword_A"@
    ||| s == "weapons.sword_B"@
    ||| s == "weapons.sword_C"@
    ||| s == "weapons.sword_D"@
    ||| s == "weapons.sword_E"@
    ||| s == "weapons.sword_F"@
    ||| s == "weapons.sword_G"@
    ||| s == "weapons.wand_A"@
    ||| s == "weapons.wand_B"@
}

/// Whether `s` names a model of the dungeon kit.
pub open spec fn is_dungeon_model(s: Seq<char>) -> bool {
    ||| s == "dungeon.banner_blue"@
    ||| s == "dungeon.banner_brown"@
    ||| s == "dungeon.banner_green"@
    ||| s == "dungeon.banner_patternA_blue"@
    ||| s == "dungeon.banner_patternA_brown"@
    ||| s == "dungeon.banner_patternA_green"@
    ||| s == "dungeon.banner_patternA_red"@
    ||| s == "dungeon.banner_patternA_white"@
    ||| s == "dungeon.banner_patternA_yellow"@
    ||| s == "dungeon.banner_patternB_blue"@
    ||| s == "dungeon.banner_patternB_brown"@
    ||| s == "dungeon.banner_patternB_green"@
    ||| s == "dungeon.banner_patternB_red"@
    ||| s == "dungeon.banner_patternB_white"@
    ||| s == "dungeon.banner_patternB_yellow"@
    ||| s == "dungeon.banner_patternC_blue"@
    ||| s == "dungeon.banner_patternC_brown"@
    ||| s == "dungeon.banner_patternC_green"@
    ||| s == "dungeon.banner_patternC_red"@
    ||| s == "dungeon.banner_patternC_white"@
    ||| s == "dungeon.banner_patternC_yellow"@
    ||| s == "dungeon.banner_red"@
    ||| s == "dungeon.banner_shield_blue"@
    ||| s == "dungeon.banner_shield_brown"@
    ||| s == "dungeon.banner_shield_green"@
    ||| s == "dungeon.banner_shield_red"@
    ||| s == "dungeon.banner_shield_white"@
    ||| s == "dungeon.banner_shield_yellow"@
    ||| s == "dungeon.banner_thin_blue"@
    ||| s == "dungeon.banner_thin_brown"@
    ||| s == "dungeon.banner_thin_green"@
    ||| s == "dungeon.banner_thin_red"@
    ||| s == "dungeon.banner_thin_white"@
    ||| s == "dungeon.banner_thin_yellow"@
    ||| s == "dungeon.banner_triple_blue"@
    ||| s == "dungeon.banner_triple_brown"@
    ||| s == "dungeon.banner_triple_green"@
    ||| s == "dungeon.banner_triple_red"@
    ||| s == "dungeon.banner_triple_white"@
    ||| s == "dungeon.banner_triple_yellow"@
    ||| s == "dungeon.banner_white"@
    ||| s == "dungeon.banner_yellow"@
    ||| s == "dungeon.bar_innercorner"@
    ||| s == "dungeon.bar_outercorner"@
    ||| s == "dungeon.bar_straight_A"@
    ||| s == "dungeon.bar_straight_A_short"@
    ||| s == "dungeon.bar_straight_B"@
    ||| s == "dungeon.bar_straight_B_short"@
    ||| s == "dungeon.bar_straight_C"@
    ||| s == "dungeon.bar_straight_C_short"@
    ||| s == "dungeon.barrel_large"@
    ||| s == "dungeon.barrel_large_decorated"@
    ||| s == "dungeon.barrel_small"@
    ||| s == "dungeon.barrel_small_stack"@
    ||| s == "dungeon.barrier"@
    ||| s == "dungeon.barrier_column_half"@
    ||| s == "dungeon.barrier_column"@
    ||| s == "dungeon.barrier_corner"@
    ||| s == "dungeon.barrier_half"@
    ||| s == "dungeon.bartop_A_large"@
    ||| s == "dungeon.bartop_A_medium"@
    ||| s == "dungeon.bartop_A_medium"@
    ||| s == "dungeon.bartop_B_large"@
    ||| s == "dungeon.bartop_B_medium"@
    ||| s == "dungeon.bartop_B_small"@
    ||| s == "dungeon.bed_A_double"@
    ||| s == "dungeon.bed_A_single"@
    ||| s == "dungeon.bed_A_stacked"@
    ||| s == "dungeon.bed_B_double"@
    ||| s == "dungeon.bed_B_single"@
    ||| s == "dungeon.bed_decorated"@
    ||| s == "dungeon.bed_floor"@
    ||| s == "dungeon.bed_floor"@
    ||| s == "dungeon.bench"@
    ||| s == "dungeon.book_brown"@
    ||| s == "dungeon.book_grey"@
    ||| s == "dungeon.book_grey"@
    ||| s == "dungeon.bookcase_double"@
    ||| s == "dungeon.bookcase_double"@
    ||| s == "dungeon.bookcase_double"@
    ||| s == "dungeon.bookcase_single"@
    ||| s == "dungeon.bookcase_single"@
    ||| s == "dungeon.bookcase_single"@
    ||| s == "dungeon.bottle_A_brown"@
    ||| s == "dungeon.bottle_A_green"@
    ||| s == "dungeon.bottle_A_labeled_brown"@
    ||| s == "dungeon.bottle_A_labeled_green"@
    ||| s == "dungeon.bottle_B_brown"@
    ||| s == "dungeon.bottle_B_green"@
    ||| s == "dungeon.bottle_C_brown"@
    ||| s == "dungeon.bottle_C_green"@
    ||| s == "dungeon.box_large"@
    ||| s == "dungeon.box_small"@
    ||| s == "dungeon.box_small_decorated"@
    ||| s == "dungeon.box_stacked"@
    ||| s == "dungeon.bucket"@
    ||| s == "dungeon.bucket_pickaxes"@
    ||| s == "dungeon.candle"@
    ||| s == "dungeon.candle_lit"@
    ||| s == "dungeon.candle_melted"@
    ||| s == "dungeon.candle_thin"@
    ||| s == "dungeon.candle_thin_lit"@
    ||| s == "dungeon.candle_triple"@
    ||| s == "dungeon.ceiling_tile"@
    ||| s == "dungeon.chair"@
    ||| s == "dungeon.chest"@
    ||| s == "dungeon.chest_gold"@
    ||| s == "dungeon.chest_mimic_open"@
    ||| s == "dungeon.coin_stack_large"@
    ||| s == "dungeon.coin_stack_medium"@
    ||| s == "dungeon.coin_stack_small"@
    ||| s == "dungeon.column"@
    ||| s == "dungeon.crate_large"@
    ||| s == "dungeon.crate_large_decorated"@
    ||| s == "dungeon.crate_small"@
    ||| s == "dungeon.crates_stacked"@
    ||| s == "dungeon.floor_dirt_large"@
    ||| s == "dungeon.floor_dirt_large_rocky"@
    ||| s == "dungeon.floor_dirt_small_A"@
    ||| s == "dungeon.floor_dirt_small_B"@
    ||| s == "dungeon.floor_dirt_small_B"@
    ||| s == "dungeon.floor_dirt_small_corner"@
    ||| s == "dungeon.floor_dirt_small_D"@
    ||| s == "dungeon.floor_dirt_small_weeds"@
    ||| s == "dungeon.floor_foundation_allsides"@
    ||| s == "dungeon.floor_foundation_corner"@
    ||| s == "dungeon.floor_foundation_diagonal_corner"@
    ||| s == "dungeon.floor_foundation_front"@
    ||| s == "dungeon.floor_foundation_front_and_back"@
    ||| s == "dungeon.floor_foundation_front_and_sides"@
    ||| s == "dungeon.floor_tile_big_grate"@
    ||| s == "dungeon.floor_tile_big_grate_open"@
    ||| s == "dungeon.floor_tile_extralarge_grates"@
    ||| s == "dungeon.floor_tile_extralarge_grates_open"@
    ||| s == "dungeon.floor_tile_grate"@
    ||| s == "dungeon.floor_tile_grate_open"@
    ||| s == "dungeon.floor_tile_large"@
    ||| s == "dungeon.floor_tile_large_rocks"@
    ||| s == "dungeon.floor_tile_small"@
    ||| s == "dungeon.floor_tile_small_broken_A"@
    ||| s == "dungeon.floor_tile_small_broken_B"@
    ||| s == "dungeon.floor_tile_small_corner"@
    ||| s == "dungeon.floor_tile_small_decorated"@
    ||| s == "dungeon.floor_tile_small_weeds_A"@
    ||| s == "dungeon.floor_tile_small_weeds_B"@
    ||| s == "dungeon.floor_wood_large"@
    ||| s == "dungeon.floor_wood_large_dark"@
    ||| s == "dungeon.floor_wood_small"@
    ||| s == "dungeon.floor_wood_small_dark"@
    ||| s == "dungeon.keg"@
    ||| s == "dungeon.keg_decorated"@
    ||| s == "dungeon.key_gold"@
    ||| s == "dungeon.keyring"@
    ||| s == "dungeon.keyring_hanging"@
    ||| s == "dungeon.pickaxe"@
    ||| s == "dungeon.pickaxe_gold"@
    ||| s == "dungeon.pillar"@
    ||| s == "dungeon.pillar_decorated"@
    ||| s == "dungeon.plate"@
    ||| s == "dungeon.plate"@
    ||| s == "dungeon.plate_food_B"@
    ||| s == "dungeon.plate_small"@
    ||| s == "dungeon.plate_small"@
    ||| s == "dungeon.post"@
    ||| s == "dungeon.rocks"@
    ||| s == "dungeon.rocks_decorated"@
    ||| s == "dungeon.rocks_gold"@
    ||| s == "dungeon.rocks_small"@
    ||| s == "dungeon.rubble_half"@
    ||| s == "dungeon.rubble_large"@
    ||| s == "dungeon.scaffold_beam_corner"@
    ||| s == "dungeon.scaffold_beam_wall"@
    ||| s == "dungeon.scaffold_beams_connected"@
    ||| s == "dungeon.scaffold_frame_large"@
    ||| s == "dungeon.scaffold_frame_small"@
    ||| s == "dungeon.scaffold_pillar_corner"@
    ||| s == "dungeon.scaffold_pillar_wall"@
    ||| s == "dungeon.scaffold_pillar_wall_cross"@
    ||| s == "dungeon.scaffold_pillar_wall_cross_top"@
    ||| s == "dungeon.scaffold_pillar_wall_torch"@
    ||| s == "dungeon.scaffold_pillars_connected"@
    ||| s == "dungeon.scaffold_pillars_connected_torch"@
    ||| s == "dungeon.shelf_large"@
    ||| s == "dungeon.shelf_small"@
    ||| s == "dungeon.shelf_small_books"@
    ||| s == "dungeon.shelf_small_candles"@
    ||| s == "dungeon.shelves"@
    ||| s == "dungeon.shelves_decorated"@
    ||| s == "dungeon.stairs"@
    ||| s == "dungeon.stairs_long"@
    ||| s == "dungeon.stairs_long_modular_center"@
    ||| s == "dungeon.stairs_long_modular_left"@
    ||| s == "dungeon.stairs_long_modular_right"@
    ||| s == "dungeon.stairs_modular_center"@
    ||| s == "dungeon.stairs_modular_left"@
    ||| s == "dungeon.stairs_modular_right"@
    ||| s == "dungeon.stairs_narrow"@
    ||| s == "dungeon.stairs_wall_left"@
    ||| s == "dungeon.stairs_wall_right"@
    ||| s == "dungeon.stairs_walled"@
    ||| s == "dungeon.stairs_wide"@
    ||| s == "dungeon.stairs_wood"@
    ||| s == "dungeon.stairs_wood_decorated"@
    ||| s == "dungeon.stool"@
    ||| s == "dungeon.stool_round"@
    ||| s == "dungeon.sword_shield"@
    ||| s == "dungeon.sword_shield_broken"@
    ||| s == "dungeon.sword_shield_gold"@
    ||| s == "dungeon.table_long"@
    ||| s == "dungeon.table_long_broken"@
    ||| s == "dungeon.table_long_decorated_A"@
    ||| s == "dungeon.table_long_decorated_B"@
    ||| s == "dungeon.table_long_decorated_C"@
    ||| s == "dungeon.table_long_tablecloth"@
    ||| s == "dungeon.table_long_tablecloth_decorated_A"@
    ||| s == "dungeon.table_medium"@
    ||| s == "dungeon.table_medium_broken"@
    ||| s == "dungeon.table_medium_decorated_A"@
    ||| s == "dungeon.table_medium_decorated_B"@
    ||| s == "dungeon.table_medium_tablecloth"@
    ||| s == "dungeon.table_medium_tablecloth_decorated_B"@
    ||| s == "dungeon.table_round_large"@
    ||| s == "dungeon.table_round_medium"@
    ||| s == "dungeon.table_round_small"@
    ||| s == "dungeon.table_small"@
    ||| s == "dungeon.table_small_decorated_A"@
    ||| s == "dungeon.table_small_decorated_B"@
    ||| s == "dungeon.table_small_decorated_C"@
    ||| s == "dungeon.torch"@
    ||| s == "dungeon.torch_lit"@
    ||| s == "dungeon.torch_lit"@
    ||| s == "dungeon.trunk_large_A"@
    ||| s == "dungeon.trunk_large_B"@
    ||| s == "dungeon.trunk_large_C"@
    ||| s == "dungeon.trunk_medium_A"@
    ||| s == "dungeon.trunk_medium_B"@
    ||| s == "dungeon.trunk_medium_C"@
    ||| s == "dungeon.trunk_small_A"@
    ||| s == "dungeon.trunk_small_B"@
    ||| s == "dungeon.trunk_small_C"@
    ||| s == "dungeon.wall"@
    ||| s == "dungeon.wall_arched"@
    ||| s == "dungeon.wall_archedwindow_gated"@
    ||| s == "dungeon.wall_archedwindow_gated_scaffold"@
    ||| s == "dungeon.wall_archedwindow_open"@
    ||| s == "dungeon.wall_broken"@
    ||| s == "dungeon.wall_corner"@
    ||| s == "dungeon.wall_corner_gated"@
    ||| s == "dungeon.wall_corner_scaffold"@
    ||| s == "dungeon.wall_corner_small"@
    ||| s == "dungeon.wall_cracked"@
    ||| s == "dungeon.wall_crossing"@
    ||| s == "dungeon.wall_doorway_sides"@
    ||| s == "dungeon.wall_doorway_Tsplit"@
    ||| s == "dungeon.wall_endcap"@
    ||| s == "dungeon.wall_gated"@
    ||| s == "dungeon.wall_half"@
    ||| s == "dungeon.wall_half_endcap"@
    ||| s == "dungeon.wall_half_endcap_sloped"@
    ||| s == "dungeon.wall_inset"@
    ||| s == "dungeon.wall_inset_candles"@
    ||| s == "dungeon.wall_inset_shelves"@
    ||| s == "dungeon.wall_inset_shelves_broken"@
    ||| s == "dungeon.wall_inset_shelves_decoratedA"@
    ||| s == "dungeon.wall_inset_shelves_decoratedB"@
    ||| s == "dungeon.wall_open_scaffold"@
    ||| s == "dungeon.wall_pillar"@
    ||| s == "dungeon.wall_scaffold"@
    ||| s == "dungeon.wall_shelves"@
    ||| s == "dungeon.wall_sloped"@
    ||| s == "dungeon.wall_Tsplit"@
    ||| s == "dungeon.wall_Tsplit_sloped"@
    ||| s == "dungeon.wall_window_closed"@
    ||| s == "dungeon.wall_window_closed_scaffold"@
    ||| s == "dungeon.wall_window_open"@
    ||| s == "dungeon.wall_window_open_scaffold"@
    ||| s == "dungeon.chest_empty"@
    ||| s == "dungeon.chest_empty_bottom"@
    ||| s == "dungeon.chest_lid"@
    ||| s == "dungeon.chest_gold"@
    ||| s == "dungeon.chest_large_closed"@
    ||| s == "dungeon.chest_large_empty_open"@
    ||| s == "dungeon.chest_large_empty_bottom"@
    ||| s == "dungeon.chest_large_empty_lid"@
    ||| s == "dungeon.chest_large_gold_closed"@
    ||| s == "dungeon.chest_large_gold_rigged"@
    ||| s == "dungeon.floor_tile_big_spikes_empty"@
    ||| s == "dungeon.floor_tile_big_spikes_poking"@
    ||| s == "dungeon.floor_tile_big_spikes_out"@
    ||| s == "dungeon.wall_doorway_empty"@
    ||| s == "dungeon.wall_doorway_scaffold_empty"@
    ||| s == "dungeon.wall_doorway_closed"@
    ||| s == "dungeon.wall_doorway_scaffold_closed"@
    ||| s == "dungeon.wall_doorway_scaffold_open"@
    ||| s == "dungeon.wall_doorway_closed"@
    ||| s == "dungeon.wall_door"@
    ||| s == "dungeon.bartop_A_small"@
    ||| s == "dungeon.bed_frame"@
    ||| s == "dungeon.book_tan"@
    ||| s == "dungeon.bookcase_double_decoratedA"@
    ||| s == "dungeon.bookcase_double_decoratedB"@
    ||| s == "dungeon.bookcase_single_decoratedA"@
    ||| s == "dungeon.bookcase_single_decoratedB"@
    ||| s == "dungeon.floor_dirt_small_C"@
    ||| s == "dungeon.plate_food_A"@
    ||| s == "dungeon.torch_mounted"@
    ||| s == "dungeon.chest_large_gold_open"@
    ||| s == "dungeon.wall_doorway_open"@
}

/// Whether `s` names a model of the city kit.
pub open spec fn is_city_model(s: Seq<char>) -> bool {
    ||| s == "city.base"@
    ||| s == "city.bench"@
    ||| s == "city.box_A"@
    ||| s == "city.box_B"@
    ||| s == "city.building_A"@
    ||| s == "city.building_A_withoutBase"@
    ||| s == "city.building_B"@
    ||| s == "city.building_B_withoutBase"@
    ||| s == "city.building_C"@
    ||| s == "city.building_C_withoutBase"@
    ||| s == "city.building_D"@
    ||| s == "city.building_D_withoutBase"@
    ||| s == "city.building_E"@
    ||| s == "city.building_E_withoutBase"@
    ||| s == "city.building_F"@
    ||| s == "city.building_F_withoutBase"@
    ||| s == "city.building_G"@
    ||| s == "city.building_G_withoutBase"@
    ||| s == "city.building_H"@
    ||| s == "city.building_H_withoutBase"@
    ||| s == "city.bush"@
    ||| s == "city.bush_A"@
    ||| s == "city.bush_B"@
    ||| s == "city.bush_C"@
    ||| s == "city.car_hatchback"@
    ||| s == "city.car_police"@
    ||| s == "city.car_sedan"@
    ||| s == "city.car_stationwagon"@
    ||| s == "city.car_taxi"@
    ||| s == "city.dumpster"@
    ||| s == "city.firehydrant"@
    ||| s == "city.park_base"@
    ||| s == "city.park_base_decorated_bushes"@
    ||| s == "city.park_base_decorated_trees"@
    ||| s == "city.park_road_corner"@
    ||| s == "city.park_road_corner_decorated"@
    ||| s == "city.park_road_junction"@
    ||| s == "city.park_road_junction_decorated_A"@
    ||| s == "city.park_road_junction_decorated_B"@
    ||| s == "city.park_road_junction_decorated_C"@
    ||| s == "city.park_road_straight"@
    ||| s == "city.park_road_straight_decorated_A"@
    ||| s == "city.park_road_straight_decorated_B"@
    ||| s == "city.park_road_tsplit"@
    ||| s == "city.park_road_tsplit_decorated"@
    ||| s == "city.park_wall_entry"@
    ||| s == "city.park_wall_entry_decorated"@
    ||| s == "city.park_wall_innerCorner"@
    ||| s == "city.park_wall_innerCorner_decorated"@
    ||| s == "city.park_wall_outerCorner"@
    ||| s == "city.park_wall_outerCorner_decorated"@
    ||| s == "city.park_wall_straight"@
    ||| s == "city.park_wall_straight_decorated"@
    ||| s == "city.road_corner"@
    ||| s == "city.road_corner_curved"@
    ||| s == "city.road_junction"@
    ||| s == "city.road_straight"@
    ||| s == "city.road_straight_crossing"@
    ||| s == "city.road_tsplit"@
    ||| s == "city.streetlight"@
    ||| s == "city.streetlight_old_double"@
    ||| s == "city.streetlight_old_single"@
    ||| s == "city.trafficlight_A"@
    ||| s == "city.trafficlight_B"@
    ||| s == "city.trafficlight_C"@
    ||| s == "city.trash_A"@
    ||| s == "city.trash_B"@
    ||| s == "city.tree_A"@
    ||| s == "city.tree_B"@
    ||| s == "city.tree_C"@
    ||| s == "city.tree_D"@
    ||| s == "city.tree_E"@
    ||| s == "city.watertower"@
}

/// Whether `s` names a model of the block kit, with the two computer models.
pub open spec fn is_block_model(s: Seq<char>) -> bool {
    ||| s == "block.anvil"@
    ||| s == "block.apple"@
    ||| s == "block.barrel"@
    ||| s == "block.battery"@
    ||| s == "block.gift"@
    ||| s == "block.hay"@
    ||| s == "block.stone"@
    ||| s == "block.stone_dark"@
    ||| s == "block.trashcan"@
    ||| s == "block.water"@
    ||| s == "block.books_A"@
    ||| s == "block.books_B"@
    ||| s == "block.bricks_A"@
    ||| s == "block.bricks_B"@
    ||| s == "block.chest"@
    ||| s == "blocks.colored_block_blue"@
    ||| s == "block.colored_block_green"@
    ||| s == "block.colored_block_red"@
    ||| s == "block.colored_block_yellow"@
    ||| s == "block.crate"@
    ||| s == "block.decorative_block_blue"@
    ||| s == "block.decorative_block_green"@
    ||| s == "block.decorative_block_red"@
    ||| s == "block.decorative_block_yellow"@
    ||| s == "block.dirt"@
    ||| s == "block.dirt_with_grass"@
    ||| s == "block.dirt_with_snow"@
    ||| s == "blocks.dynamite"@
    ||| s == "block.glass"@
    ||| s == "block.grass"@
    ||| s == "block.grass_with_snow"@
    ||| s == "blocks.gravel"@
    ||| s == "block.gravel_with_grass"@
    ||| s == "block.gravel_with_snow"@
    ||| s == "block.hay_bale"@
    ||| s == "block.lava"@
    ||| s == "block.melon"@
    ||| s == "block.metal"@
    ||| s == "block.metalframe"@
    ||| s == "block.pipe"@
    ||| s == "block.prototype"@
    ||| s == "block.sand_A"@
    ||| s == "block.sand_B"@
    ||| s == "block.sand_with_grass"@
    ||| s == "block.sand_with_snow"@
    ||| s == "block.snow"@
    ||| s == "blocks.stone_with_copper"@
    ||| s == "block.stone_with_gold"@
    ||| s == "block.stone_with_silver"@
    ||| s == "block.striped_block_blue"@
    ||| s == "block.striped_block_green"@
    ||| s == "block.striped_block_red"@
    ||| s == "block.striped_block_yellow"@
    ||| s == "block.tree"@
    ||| s == "block.tree_with_snow"@
    ||| s == "block.vault"@
    ||| s == "block.wood"@
    ||| s == "blocks.computer"@
    ||| s == "computer"@
}

fn platformer_model(s: &str) -> (res: bool)
    ensures
        res == is_platformer_model(s@),
{
    str_eq(s, "platformer.ball")
        || str_eq(s, "platformer.barrier_1x1x1")
        || str_eq(s, "platformer.barrier_1x1x2")
        || str_eq(s, "platformer.barrier_1x1x4")
        || str_eq(s, "platformer.barrier_2x1x1")
        || str_eq(s, "platformer.barrier_2x1x2")
        || str_eq(s, "platformer.barrier_2x1x4")
        || str_eq(s, "platformer.barrier_3x1x1")
        || str_eq(s, "platformer.barrier_3x1x2")
        || str_eq(s, "platformer.barrier_3x1x4")
        || str_eq(s, "platformer.barrier_4x1x1")
        || str_eq(s, "platformer.barrier_4x1x2")
        || str_eq(s, "platformer.barrier_4x1x4")
        || str_eq(s, "platformer.bomb")
        || str_eq(s, "platformer.cannon_bullet")
        || str_eq(s, "platformer.chain_full")
        || str_eq(s, "platformer.chain_link")
        || str_eq(s, "platformer.chain_link_end_bottom")
        || str_eq(s, "platformer.chain_link_end_top")
        || str_eq(s, "platformer.cone")
        || str_eq(s, "platformer.floor_spikes_2x2x1")
        || str_eq(s, "platformer.floor_spikes_4x4x1")
        || str_eq(s, "platformer.floor_spikes_curved_4x2x2")
        || str_eq(s, "platformer.floor_wood_1x1")
        || str_eq(s, "platformer.floor_wood_2x2")
        || str_eq(s, "platformer.floor_wood_2x6")
        || str_eq(s, "platformer.floor_wood_4x4")
        || str_eq(s, "platformer.hammerblock")
        || str_eq(s, "platformer.hammerblock_spikes")
        || str_eq(s, "platformer.pillar_1x1x1")
        || str_eq(s, "platformer.pillar_1x1x2")
        || str_eq(s, "platformer.pillar_1x1x4")
        || str_eq(s, "platformer.pillar_1x1x8")
        || str_eq(s, "platformer.pillar_2x2x2")
        || str_eq(s, "platformer.pillar_2x2x4")
        || str_eq(s, "platformer.pillar_2x2x8")
        || str_eq(s, "platformer.platform_wood_1x1x1")
        || str_eq(s, "platformer.sawblade")
        || str_eq(s, "platformer.sign")
        || str_eq(s, "platformer.signage_arrows_left")
        || str_eq(s, "platformer.signage_arrows_right")
        || str_eq(s, "platformer.signage_finish")
        || str_eq(s, "platformer.signage_finish_wide")
        || str_eq(s, "platformer.spikeball")
        || str_eq(s, "platformer.spikeball_hanger")
        || str_eq(s, "platformer.spikeroller_horizontal")
        || str_eq(s, "platformer.spikeroller_vertical")
        || str_eq(s, "platformer.spring")
        || str_eq(s, "platformer.structure_A")
        || str_eq(s, "platformer.structure_B")
        || str_eq(s, "platformer.structure_C")
        || str_eq(s, "platformer.strut_horizontal")
        || str_eq(s, "platformer.strut_vertical")
}

fn platformer_blue_model(s: &str) -> (res: bool)
    ensures
        res == is_platformer_blue_model(s@),
{
    str_eq(s, "platformer.arch_blue")
        || str_eq(s, "platformer.arch_tall_blue")
        || str_eq(s, "platformer.arch_wide_blue")
        || str_eq(s, "platformer.ball_blue")
        || str_eq(s, "platformer.barrier_1x1x1_blue")
        || str_eq(s, "platformer.barrier_1x1x2_blue")
        || str_eq(s, "platformer.barrier_1x1x4_blue")
        || str_eq(s, "platformer.barrier_2x1x1_blue")
        || str_eq(s, "platformer.barrier_2x1x2_blue")
        || str_eq(s, "platformer.barrier_2x1x4_blue")
        || str_eq(s, "platformer.barrier_3x1x1_blue")
        || str_eq(s, "platformer.barrier_3x1x2_blue")
        || str_eq(s, "platformer.barrier_3x1x4_blue")
        || str_eq(s, "platformer.barrier_4x1x1_blue")
        || str_eq(s, "platformer.barrier_4x1x2_blue")
        || str_eq(s, "platformer.barrier_4x1x4_blue")
        || str_eq(s, "platformer.bomb_A_blue")
        || str_eq(s, "platformer.bomb_B_blue")
        || str_eq(s, "platformer.bracing_large_blue")
        || str_eq(s, "platformer.bracing_medium_blue")
        || str_eq(s, "platformer.bracing_small_blue")
        || str_eq(s, "platformer.button_base_blue")
        || str_eq(s, "platformer.cannon_base_blue")
        || str_eq(s, "platformer.chest_blue")
        || str_eq(s, "platformer.chest_large_blue")
        || str_eq(s, "platformer.cone_blue")
        || str_eq(s, "platformer.conveyor_2x4x1_blue")
        || str_eq(s, "platformer.conveyor_2x8x1_blue")
        || str_eq(s, "platformer.conveyor_4x4x1_blue")
        || str_eq(s, "platformer.conveyor_4x8x1_blue")
        || str_eq(s, "platformer.diamond_blue")
        || str_eq(s, "platformer.flag_A_blue")
        || str_eq(s, "platformer.flag_B_blue")
        || str_eq(s, "platformer.flag_C_blue")
        || str_eq(s, "platformer.floor_net_2x2x1_blue")
        || str_eq(s, "platformer.floor_net_4x4x1_blue")
        || str_eq(s, "platformer.floor_spikes_trap_2x2x1_blue_empty")
        || str_eq(s, "platformer.floor_spikes_trap_4x4x1_blue")
        || str_eq(s, "platformer.floor_spikes_trap_4x4x1_blue_empty")
        || str_eq(s, "platformer.floor_spikes_trap_spikes_2x2x1")
        || str_eq(s, "platformer.floor_spikes_trap_spikes_2x2x1_blue")
        || str_eq(s, "platformer.floor_spikes_trap_spikes_4x4x1")
        || str_eq(s, "platformer.hammer_blue")
        || str_eq(s, "platformer.hammer_large_blue")
        || str_eq(s, "platformer.hammer_large_spikes_blue")
        || str_eq(s, "platformer.hammer_spikes_blue")
        || str_eq(s, "platformer.heart_blue")
        || str_eq(s, "platformer.hoop_angled_blue")
        || str_eq(s, "platformer.hoop_blue")
        || str_eq(s, "platformer.lever_floor_base_blue")
        || str_eq(s, "platformer.lever_wall_base_A_blue")
        || str_eq(s, "platformer.lever_wall_base_B_blue")
        || str_eq(s, "platformer.pipe_90_A_blue")
        || str_eq(s, "platformer.pipe_90_B_blue")
        || str_eq(s, "platformer.pipe_180_A_blue")
        || str_eq(s, "platformer.pipe_180_B_blue")
        || str_eq(s, "platformer.pipe_end_blue")
        || str_eq(s, "platformer.pipe_straight_A_blue")
        || str_eq(s, "platformer.pipe_straight_B_blue")
        || str_eq(s, "platformer.platform_1x1x1_blue")
        || str_eq(s, "platformer.platform_2x2x1_blue")
        || str_eq(s, "platformer.platform_2x2x2_blue")
        || str_eq(s, "platformer.platform_2x2x4_blue")
        || str_eq(s, "platformer.platform_4x2x1_blue")
        || str_eq(s, "platformer.platform_4x2x2_blue")
        || str_eq(s, "platformer.platform_4x2x4_blue")
        || str_eq(s, "platformer.platform_4x4x1_blue")
        || str_eq(s, "platformer.platform_4x4x2_blue")
        || str_eq(s, "platformer.platform_4x4x4_blue")
        || str_eq(s, "platformer.platform_6x2x1_blue")
        || str_eq(s, "platformer.platform_6x2x2_blue")
        || str_eq(s, "platformer.platform_6x2x4_blue")
        || str_eq(s, "platformer.platform_6x6x1_blue")
        || str_eq(s, "platformer.platform_6x6x2_blue")
        || str_eq(s, "platformer.platform_6x6x4_blue")
        || str_eq(s, "platformer.platform_arrow_2x2x1_blue")
        || str_eq(s, "platformer.platform_arrow_4x4x1_blue")
        || str_eq(s, "platformer.platform_decorative_1x1x1_blue")
        || str_eq(s, "platformer.platform_decorative_2x2x2_blue")
        || str_eq(s, "platformer.platform_hole_6x6x1_blue")
        || str_eq(s, "platformer.platform_slope_2x2x2_blue")
        || str_eq(s, "platformer.platform_slope_2x4x4_blue")
        || str_eq(s, "platformer.platform_slope_2x6x4_blue")
        || str_eq(s, "platformer.platform_slope_4x2x2_blue")
        || str_eq(s, "platformer.platform_slope_4x4x4_blue")
        || str_eq(s, "platformer.platform_slope_4x6x4_blue")
        || str_eq(s, "platformer.platform_slope_6x2x2_blue")
        || str_eq(s, "platformer.platform_slope_6x4x4_blue")
        || str_eq(s, "platformer.platform_slope_6x6x4_blue")
        || str_eq(s, "platformer.power_blue")
        || str_eq(s, "platformer.railing_corner_double_blue")
        || str_eq(s, "platformer.railing_corner_padded_blue")
        || str_eq(s, "platformer.railing_corner_single_blue")
        || str_eq(s, "platformer.railing_straight_double_blue")
        || str_eq(s, "platformer.railing_straight_padded_blue")
        || str_eq(s, "platformer.railing_straight_single_blue")
        || str_eq(s, "platformer.safetynet_2x2x1_blue")
        || str_eq(s, "platformer.safetynet_4x2x1_blue")
        || str_eq(s, "platformer.safetynet_6x2x1_blue")
        || str_eq(s, "platformer.saw_trap_blue")
        || str_eq(s, "platformer.saw_trap_double_blue")
        || str_eq(s, "platformer.saw_trap_long_blue")
        || str_eq(s, "platformer.signage_arrow_stand_blue")
        || str_eq(s, "platformer.signage_arrow_wall_blue")
        || str_eq(s, "platformer.signage_arrows_left_blue")
        || str_eq(s, "platformer.signage_arrows_right_blue")
        || str_eq(s, "platformer.spikeblock_double_horizontal_blue")
        || str_eq(s, "platformer.spikeblock_double_vertical_blue")
        || str_eq(s, "platformer.spikeblock_down_blue")
        || str_eq(s, "platformer.spikeblock_left_blue")
        || str_eq(s, "platformer.spikeblock_omni_blue")
        || str_eq(s, "platformer.spikeblock_quad_blue")
        || str_eq(s, "platformer.spikeblock_right_blue")
        || str_eq(s, "platformer.spikeblock_up_blue")
        || str_eq(s, "platformer.spring_pad_blue")
        || str_eq(s, "platformer.star_blue")
        || str_eq(s, "platformer.swiper_blue")
        || str_eq(s, "platformer.swiper_double_blue")
        || str_eq(s, "platformer.swiper_double_long_blue")
        || str_eq(s, "platformer.swiper_long_blue")
        || str_eq(s, "platformer.swiper_quad_blue")
        || str_eq(s, "platformer.swiper_quad_long_blue")
}

fn medieval_model(s: &str) -> (res: bool)
    ensures
        res == is_medieval_model(s@),
{
    str_eq(s, "medieval.building_archeryrange_blue")
        || str_eq(s, "medieval.building_barracks_blue")
        || str_eq(s, "medieval.building_blacksmith_blue")
        || str_eq(s, "medieval.building_castle_blue")
        || str_eq(s, "medieval.building_church_blue")
        || str_eq(s, "medieval.building_docks_blue")
        || str_eq(s, "medieval.building_home_A_blue")
        || str_eq(s, "medieval.building_home_B_blue")
        || str_eq(s, "medieval.building_lumbermill_blue")
        || str_eq(s, "medieval.building_market_blue")
        || str_eq(s, "medieval.building_mine_blue")
        || str_eq(s, "medieval.building_shipyard_blue")
        || str_eq(s, "medieval.building_shrine_blue")
        || str_eq(s, "medieval.building_stables_blue")
        || str_eq(s, "medieval.building_tavern_blue")
        || str_eq(s, "medieval.building_tent_blue")
        || str_eq(s, "medieval.building_tower_A_blue")
        || str_eq(s, "medieval.building_tower_A_blue_top")
        || str_eq(s, "medieval.building_tower_B_blue")
        || str_eq(s, "medieval.building_tower_B_blue_top")
        || str_eq(s, "medieval.building_tower_base_blue")
        || str_eq(s, "medieval.building_tower_cannon_blue")
        || str_eq(s, "medieval.building_tower_catapult_blue")
        || str_eq(s, "medieval.building_townhall_blue")
        || str_eq(s, "medieval.building_watchtower_blue")
        || str_eq(s, "medieval.building_watermill_blue")
        || str_eq(s, "medieval.building_watermill_blue_no_wheel")
        || str_eq(s, "medieval.building_watermill_wheel")
        || str_eq(s, "medieval.building_well_blue")
        || str_eq(s, "medieval.building_windmill_blue")
        || str_eq(s, "medieval.building_windmill_bot_blue")
        || str_eq(s, "medieval.building_windmill_top_blue")
        || str_eq(s, "medieval.building_windmill_top_fan")
        || str_eq(s, "medieval.building_workshop_blue")
        || str_eq(s, "medieval.cannon_blue")
        || str_eq(s, "medieval.cannon_turret_blue")
        || str_eq(s, "medieval.catapult_arm_blue")
        || str_eq(s, "medieval.catapult_turret_blue")
        || str_eq(s, "medieval.cloud_big")
        || str_eq(s, "medieval.cloud_small")
        || str_eq(s, "medieval.hill_single_A")
        || str_eq(s, "medieval.hill_single_B")
        || str_eq(s, "medieval.hill_single_C")
        || str_eq(s, "medieval.hills_A")
        || str_eq(s, "medieval.hills_A_trees")
        || str_eq(s, "medieval.hills_B")
        || str_eq(s, "medieval.hills_B_trees")
        || str_eq(s, "medieval.hills_C")
        || str_eq(s, "medieval.hills_C_trees")
        || str_eq(s, "medieval.mountain_A")
        || str_eq(s, "medieval.mountain_A_grass")
        || str_eq(s, "medieval.mountain_A_grass_trees")
        || str_eq(s, "medieval.mountain_B")
        || str_eq(s, "medieval.mountain_B_grass")
        || str_eq(s, "medieval.mountain_B_grass_trees")
        || str_eq(s, "medieval.mountain_C")
        || str_eq(s, "medieval.mountain_C_grass")
        || str_eq(s, "medieval.mountain_C_grass_trees")
        || str_eq(s, "medieval.rock_single_A")
        || str_eq(s, "medieval.rock_single_B")
        || str_eq(s, "medieval.rock_single_C")
        || str_eq(s, "medieval.rock_single_D")
        || str_eq(s, "medieval.rock_single_E")
        || str_eq(s, "medieval.tree_single_A")
        || str_eq(s, "medieval.tree_single_A_cut")
        || str_eq(s, "medieval.tree_single_B")
        || str_eq(s, "medieval.tree_single_B_cut")
        || str_eq(s, "medieval.trees_A_cut")
        || str_eq(s, "medieval.trees_A_large")
        || str_eq(s, "medieval.trees_A_medium")
        || str_eq(s, "medieval.trees_A_small")
        || str_eq(s, "medieval.trees_B_cut")
        || str_eq(s, "medieval.trees_B_large")
        || str_eq(s, "medieval.trees_B_medium")
        || str_eq(s, "medieval.trees_B_small")
        || str_eq(s, "medieval.waterlily_A")
        || str_eq(s, "medieval.waterlily_B")
        || str_eq(s, "medieval.waterplant_A")
        || str_eq(s, "medieval.waterplant_B")
        || str_eq(s, "medieval.waterplant_C")
        || str_eq(s, "medieval.anchor")
        || str_eq(s, "medieval.barrel")
        || str_eq(s, "medieval.boat")
        || str_eq(s, "medieval.boatrack")
        || str_eq(s, "medieval.bucket_arrows")
        || str_eq(s, "medieval.bucket_empty")
        || str_eq(s, "medieval.bucket_water")
        || str_eq(s, "medieval.cannonball_pallet")
        || str_eq(s, "medieval.crate_A_big")
        || str_eq(s, "medieval.crate_A_small")
        || str_eq(s, "medieval.crate_B_big")
        || str_eq(s, "medieval.crate_B_small")
        || str_eq(s, "medieval.crate_long_A")
        || str_eq(s, "medieval.crate_long_B")
        || str_eq(s, "medieval.crate_long_C")
        || str_eq(s, "medieval.crate_long_empty")
        || str_eq(s, "medieval.crate_open")
        || str_eq(s, "medieval.flag_blue")
        || str_eq(s, "medieval.flag_green")
        || str_eq(s, "medieval.flag_red")
        || str_eq(s, "medieval.flag_yellow")
        || str_eq(s, "medieval.haybale")
        || str_eq(s, "medieval.icon_combat")
        || str_eq(s, "medieval.icon_range")
        || str_eq(s, "medieval.ladder")
        || str_eq(s, "medieval.pallet")
        || str_eq(s, "medieval.resource_lumber")
        || str_eq(s, "medieval.resource_stone")
        || str_eq(s, "medieval.sack")
        || str_eq(s, "medieval.target")
        || str_eq(s, "medieval.tent")
        || str_eq(s, "medieval.trough")
        || str_eq(s, "medieval.trough_long")
        || str_eq(s, "medieval.weaponrack")
        || str_eq(s, "medieval.wheelbarrow")
        || str_eq(s, "medieval.hex_grass")
        || str_eq(s, "medieval.hex_grass_bottom")
        || str_eq(s, "medieval.hex_grass_sloped_high")
        || str_eq(s, "medieval.hex_grass_sloped_low")
        || str_eq(s, "medieval.hex_transition")
        || str_eq(s, "medieval.hex_water")
        || str_eq(s, "medieval.hex_coast_A")
        || str_eq(s, "medieval.hex_coast_B")
        || str_eq(s, "medieval.hex_coast_C")
        || str_eq(s, "medieval.hex_coast_D")
        || str_eq(s, "medieval.hex_coast_E")
        || str_eq(s, "medieval.hex_coast_A_waterless")
        || str_eq(s, "medieval.hex_coast_B_waterless")
        || str_eq(s, "medieval.hex_coast_C_waterless")
        || str_eq(s, "medieval.hex_coast_D_waterless")
        || str_eq(s, "medieval.hex_coast_E_waterless")
        || str_eq(s, "medieval.hex_river_A")
        || str_eq(s, "medieval.hex_river_A_curvy")
        || str_eq(s, "medieval.hex_river_B")
        || str_eq(s, "medieval.hex_river_C")
        || str_eq(s, "medieval.hex_river_crossing_A")
        || str_eq(s, "medieval.hex_river_crossing_B")
        || str_eq(s, "medieval.hex_river_D")
        || str_eq(s, "medieval.hex_river_E")
        || str_eq(s, "medieval.hex_river_F")
        || str_eq(s, "medieval.hex_river_G")
        || str_eq(s, "medieval.hex_river_H")
        || str_eq(s, "medieval.hex_river_I")
        || str_eq(s, "medieval.hex_river_J")
        || str_eq(s, "medieval.hex_river_K")
        || str_eq(s, "medieval.hex_river_L")
        || str_eq(s, "medieval.hex_river_A_curvy_waterless")
        || str_eq(s, "medieval.hex_river_A_waterless")
        || str_eq(s, "medieval.hex_river_B_waterless")
        || str_eq(s, "medieval.hex_river_C_waterless")
        || str_eq(s, "medieval.hex_river_crossing_A_waterless")
        || str_eq(s, "medieval.hex_river_crossing_B_waterless")
        || str_eq(s, "medieval.hex_river_D_waterless")
        || str_eq(s, "medieval.hex_river_E_waterless")
        || str_eq(s, "medieval.hex_river_F_waterless")
        || str_eq(s, "medieval.hex_river_G_waterless")
        || str_eq(s, "medieval.hex_river_H_waterless")
        || str_eq(s, "medieval.hex_river_I_waterless")
        || str_eq(s, "medieval.hex_river_J_waterless")
        || str_eq(s, "medieval.hex_river_K_waterless")
        || str_eq(s, "medieval.hex_river_L_waterless")
        || str_eq(s, "medieval.hex_road_A")
        || str_eq(s, "medieval.hex_road_A_sloped_high")
        || str_eq(s, "medieval.hex_road_A_sloped_low")
        || str_eq(s, "medieval.hex_road_B")
        || str_eq(s, "medieval.hex_road_C")
        || str_eq(s, "medieval.hex_road_D")
        || str_eq(s, "medieval.hex_road_E")
        || str_eq(s, "medieval.hex_road_F")
        || str_eq(s, "medieval.hex_road_G")
        || str_eq(s, "medieval.hex_road_H")
        || str_eq(s, "medieval.hex_road_I")
        || str_eq(s, "medieval.hex_road_J")
        || str_eq(s, "medieval.hex_road_K")
        || str_eq(s, "medieval.hex_road_L")
        || str_eq(s, "medieval.hex_road_M")
        || str_eq(s, "medieval.banner_blue_accent")
        || str_eq(s, "medieval.banner_blue_full")
        || str_eq(s, "medieval.bow_blue_accent")
        || str_eq(s, "medieval.bow_blue_full")
        || str_eq(s, "medieval.helmet_blue_accent")
        || str_eq(s, "medieval.helmet_blue_full")
        || str_eq(s, "medieval.horse_blue_accent")
        || str_eq(s, "medieval.horse_blue_full")
        || str_eq(s, "medieval.projectile_arrow_blue_accent")
        || str_eq(s, "medieval.projectile_arrow_blue_full")
        || str_eq(s, "medieval.shield_blue_accent")
        || str_eq(s, "medieval.shield_blue_full")
        || str_eq(s, "medieval.ship_blue_accent")
        || str_eq(s, "medieval.ship_blue_full")
        || str_eq(s, "medieval.spear_blue_accent")
        || str_eq(s, "medieval.spear_blue_full")
        || str_eq(s, "medieval.sword_blue_accent")
        || str_eq(s, "medieval.sword_blue_full")
        || str_eq(s, "medieval.unit_blue_accent")
        || str_eq(s, "medieval.unit_blue_full")
        || str_eq(s, "medieval.cannon_blue_accent")
        || str_eq(s, "medieval.cannon_blue_full")
        || str_eq(s, "medieval.cart_blue_accent")
        || str_eq(s, "medieval.cart_blue_full")
        || str_eq(s, "medieval.cart_merchant_blue_accent")
        || str_eq(s, "medieval.cart_merchant_blue_full")
        || str_eq(s, "medieval.catapult_blue_accent")
        || str_eq(s, "medieval.catapult_blue_full")
}

fn holiday_model(s: &str) -> (res: bool)
    ensures
        res == is_holiday_model(s@),
{
    str_eq(s, "xmas.basketball")
        || str_eq(s, "xmas.bell")
        || str_eq(s, "xmas.bell_decorated")
        || str_eq(s, "xmas.candy_A_blue")
        || str_eq(s, "xmas.candy_A_green")
        || str_eq(s, "xmas.candy_A_pink")
        || str_eq(s, "xmas.candy_A_yellow")
        || str_eq(s, "xmas.candy_B_blue")
        || str_eq(s, "xmas.candy_B_green")
        || str_eq(s, "xmas.candy_B_pink")
        || str_eq(s, "xmas.candy_B_yellow")
        || str_eq(s, "xmas.candy_C_blue")
        || str_eq(s, "xmas.candy_C_green")
        || str_eq(s, "xmas.candy_C_pink")
        || str_eq(s, "xmas.candy_C_yellow")
        || str_eq(s, "xmas.candy_peppermint")
        || str_eq(s, "xmas.candycane_large")
        || str_eq(s, "xmas.candycane_small")
        || str_eq(s, "xmas.carpet_round_large")
        || str_eq(s, "xmas.carpet_round_small")
        || str_eq(s, "xmas.chair_large_blue")
        || str_eq(s, "xmas.chair_large_brown")
        || str_eq(s, "xmas.chair_large_green")
        || str_eq(s, "xmas.chair_large_red")
        || str_eq(s, "xmas.christmas_tree")
        || str_eq(s, "xmas.christmas_tree_base")
        || str_eq(s, "xmas.christmas_tree_decorated")
        || str_eq(s, "xmas.christmas_tree_withoutLights")
        || str_eq(s, "xmas.cookie")
        || str_eq(s, "xmas.cube_gingerbread_large_A")
        || str_eq(s, "xmas.cube_gingerbread_large_B")
        || str_eq(s, "xmas.cube_gingerbread_slope")
        || str_eq(s, "xmas.cube_gingerbread_small_A")
        || str_eq(s, "xmas.cube_gingerbread_small_B")
        || str_eq(s, "xmas.door_gingerbread")
        || str_eq(s, "xmas.floor_gingerbread_large")
        || str_eq(s, "xmas.floor_gingerbread_small")
        || str_eq(s, "xmas.football")
        || str_eq(s, "xmas.footstool_blue")
        || str_eq(s, "xmas.footstool_brown")
        || str_eq(s, "xmas.footstool_green")
        || str_eq(s, "xmas.footstool_red")
        || str_eq(s, "xmas.gingerbread_house")
        || str_eq(s, "xmas.gingerbread_house_decorated")
        || str_eq(s, "xmas.gingerbread_man")
        || str_eq(s, "xmas.hot_chocolate")
        || str_eq(s, "xmas.hot_chocolate_decorated")
        || str_eq(s, "xmas.lantern")
        || str_eq(s, "xmas.lantern_decorated")
        || str_eq(s, "xmas.lantern_mini")
        || str_eq(s, "xmas.milk")
        || str_eq(s, "xmas.mistletoe_A")
        || str_eq(s, "xmas.mistletoe_B")
        || str_eq(s, "xmas.pillar_gingerbread_large_A")
        || str_eq(s, "xmas.pillar_gingerbread_large_B")
        || str_eq(s, "xmas.pillar_gingerbread_small_A")
        || str_eq(s, "xmas.pillar_gingerbread_small_B")
        || str_eq(s, "xmas.plate_blue")
        || str_eq(s, "xmas.plate_decorated_A")
        || str_eq(s, "xmas.plate_decorated_B")
        || str_eq(s, "xmas.plate_red")
        || str_eq(s, "xmas.plate_small_blue")
        || str_eq(s, "xmas.plate_small_red")
        || str_eq(s, "xmas.plate_small_white")
        || str_eq(s, "xmas.plate_white")
        || str_eq(s, "xmas.present_A_blue")
        || str_eq(s, "xmas.present_A_green")
        || str_eq(s, "xmas.present_A_red")
        || str_eq(s, "xmas.present_A_white")
        || str_eq(s, "xmas.present_A_yellow")
        || str_eq(s, "xmas.present_B_blue")
        || str_eq(s, "xmas.present_B_green")
        || str_eq(s, "xmas.present_B_red")
        || str_eq(s, "xmas.present_B_white")
        || str_eq(s, "xmas.present_B_yellow")
        || str_eq(s, "xmas.present_C_blue")
        || str_eq(s, "xmas.present_C_green")
        || str_eq(s, "xmas.present_C_red")
        || str_eq(s, "xmas.present_C_white")
        || str_eq(s, "xmas.present_C_yellow")
        || str_eq(s, "xmas.present_D_blue")
        || str_eq(s, "xmas.present_D_green")
        || str_eq(s, "xmas.present_D_red")
        || str_eq(s, "xmas.present_D_white")
        || str_eq(s, "xmas.present_D_yellow")
        || str_eq(s, "xmas.present_E_blue")
        || str_eq(s, "xmas.present_E_green")
        || str_eq(s, "xmas.present_E_red")
        || str_eq(s, "xmas.present_E_white")
        || str_eq(s, "xmas.present_E_yellow")
        || str_eq(s, "xmas.present_F_blue")
        || str_eq(s, "xmas.present_F_green")
        || str_eq(s, "xmas.present_F_red")
        || str_eq(s, "xmas.present_F_white")
        || str_eq(s, "xmas.present_F_yellow")
        || str_eq(s, "xmas.present_sphere_A_blue")
        || str_eq(s, "xmas.present_sphere_A_green")
        || str_eq(s, "xmas.present_sphere_A_red")
        || str_eq(s, "xmas.present_sphere_A_white")
        || str_eq(s, "xmas.present_sphere_A_yellow")
        || str_eq(s, "xmas.present_sphere_B_blue")
        || str_eq(s, "xmas.present_sphere_B_green")
        || str_eq(s, "xmas.present_sphere_B_red")
        || str_eq(s, "xmas.present_sphere_B_white")
        || str_eq(s, "xmas.present_sphere_B_yellow")
        || str_eq(s, "xmas.roof_gingerbread_left")
        || str_eq(s, "xmas.roof_gingerbread_left_overhang")
        || str_eq(s, "xmas.roof_gingerbread_right")
        || str_eq(s, "xmas.roof_gingerbread_right")
        || str_eq(s, "xmas.snowball")
        || str_eq(s, "xmas.snowball_cannon")
        || str_eq(s, "xmas.snowball_pile")
        || str_eq(s, "xmas.snowman_A")
        || str_eq(s, "xmas.snowman_B")
        || str_eq(s, "xmas.stool")
        || str_eq(s, "xmas.tracks_crossing")
        || str_eq(s, "xmas.tracks_curve")
        || str_eq(s, "xmas.tracks_split_left")
        || str_eq(s, "xmas.tracks_split_right")
        || str_eq(s, "xmas.tracks_straight")
        || str_eq(s, "xmas.tracks_straight_station")
        || str_eq(s, "xmas.train_locomotive")
        || str_eq(s, "xmas.train_tender_coal")
        || str_eq(s, "xmas.train_tender_empty")
        || str_eq(s, "xmas.train_tender_presents_A")
        || str_eq(s, "xmas.train_tender_presents_B")
        || str_eq(s, "xmas.train_wagon")
        || str_eq(s, "xmas.wall_decoration_candy_A")
        || str_eq(s, "xmas.wall_decoration_candy_B")
        || str_eq(s, "xmas.wall_decoration_candy_C")
        || str_eq(s, "xmas.wall_gingerbread_A")
        || str_eq(s, "xmas.wall_gingerbread_B")
        || str_eq(s, "xmas.wall_gingerbread_doorway_A")
        || str_eq(s, "xmas.wall_gingerbread_doorway_B")
        || str_eq(s, "xmas.wall_gingerbread_slope")
        || str_eq(s, "xmas.wall_gingerbread_window_A")
        || str_eq(s, "xmas.wall_gingerbread_window_B")
        || str_eq(s, "xmas.wreath")
        || str_eq(s, "xmas.tracks_split_arrow")
}

fn halloween_model(s: &str) -> (res: bool)
    ensures
        res == is_halloween_model(s@),
{
    str_eq(s, "halloween.arch")
        || str_eq(s, "halloween.arch_gate")
        || str_eq(s, "halloween.arch_gate_closed")
        || str_eq(s, "halloween.arch_gate_left")
        || str_eq(s, "halloween.arch_gate_open")
        || str_eq(s, "halloween.arch_gate_right")
        || str_eq(s, "halloween.bench")
        || str_eq(s, "halloween.bench_decorated")
        || str_eq(s, "halloween.bone_A")
        || str_eq(s, "halloween.bone_B")
        || str_eq(s, "halloween.bone_C")
        || str_eq(s, "halloween.candle")
        || str_eq(s, "halloween.candle_melted")
        || str_eq(s, "halloween.candle_thin")
        || str_eq(s, "halloween.candle_triple")
        || str_eq(s, "halloween.candy_blue_A")
        || str_eq(s, "halloween.candy_blue_B")
        || str_eq(s, "halloween.candy_brown_A")
        || str_eq(s, "halloween.candy_brown_B")
        || str_eq(s, "halloween.candy_brown_C")
        || str_eq(s, "halloween.candy_bucket_A_decorated_no_handle")
        || str_eq(s, "halloween.candy_bucket_A_decorated_w_handle")
        || str_eq(s, "halloween.candy_bucket_A_no_handle")
        || str_eq(s, "halloween.candy_bucket_A_w_handle")
        || str_eq(s, "halloween.candy_bucket_B_decorated_no_handle")
        || str_eq(s, "halloween.candy_bucket_B_decorated_w_handle")
        || str_eq(s, "halloween.candy_bucket_B_no_handle")
        || str_eq(s, "halloween.candy_bucket_B_w_handle")
        || str_eq(s, "halloween.candy_green_A")
        || str_eq(s, "halloween.candy_green_B")
        || str_eq(s, "halloween.candy_green_C")
        || str_eq(s, "halloween.candy_orange_A")
        || str_eq(s, "halloween.candy_orange_B")
        || str_eq(s, "halloween.candy_orange_C")
        || str_eq(s, "halloween.candy_pink_A")
        || str_eq(s, "halloween.candy_pink_B")
        || str_eq(s, "halloween.candy_purple_A")
        || str_eq(s, "halloween.candy_purple_B")
        || str_eq(s, "halloween.candycorn")
        || str_eq(s, "halloween.coffin_bottom")
        || str_eq(s, "halloween.coffin_closed")
        || str_eq(s, "halloween.coffin_decorated")
        || str_eq(s, "halloween.coffin_top")
        || str_eq(s, "halloween.crypt")
        || str_eq(s, "halloween.fence")
        || str_eq(s, "halloween.fence_broken")
        || str_eq(s, "halloween.fence_gate_closed")
        || str_eq(s, "halloween.fence_gate_empty")
        || str_eq(s, "halloween.fence_gate_open")
        || str_eq(s, "halloween.fence_pillar")
        || str_eq(s, "halloween.fence_pillar_broken")
        || str_eq(s, "halloween.fence_seperate")
        || str_eq(s, "halloween.fence_seperate_broken")
        || str_eq(s, "halloween.floor_dirt")
        || str_eq(s, "halloween.floor_dirt_grave")
        || str_eq(s, "halloween.floor_dirt_small")
        || str_eq(s, "halloween.grave_A")
        || str_eq(s, "halloween.grave_A_destroyed")
        || str_eq(s, "halloween.grave_B")
        || str_eq(s, "halloween.gravemarker_A")
        || str_eq(s, "halloween.gravemarker_B")
        || str_eq(s, "halloween.gravestone")
        || str_eq(s, "halloween.haybale")
        || str_eq(s, "halloween.lantern_hanging")
        || str_eq(s, "halloween.lantern_standing")
        || str_eq(s, "halloween.lollipop_blue")
        || str_eq(s, "halloween.lollipop_brown")
        || str_eq(s, "halloween.lollipop_green")
        || str_eq(s, "halloween.lollipop_orange")
        || str_eq(s, "halloween.lollipop_pink")
        || str_eq(s, "halloween.lollipop_purple")
        || str_eq(s, "halloween.maze_short")
        || str_eq(s, "halloween.maze_tall")
        || str_eq(s, "halloween.path_A")
        || str_eq(s, "halloween.path_B")
        || str_eq(s, "halloween.path_C")
        || str_eq(s, "halloween.path_D")
        || str_eq(s, "halloween.pillar")
        || str_eq(s, "halloween.pitchfork")
        || str_eq(s, "halloween.plaque")
        || str_eq(s, "halloween.plaque_candles")
        || str_eq(s, "halloween.post")
        || str_eq(s, "halloween.post_lantern")
        || str_eq(s, "halloween.post_skull")
        || str_eq(s, "halloween.pumpkin_orange")
        || str_eq(s, "halloween.pumpkin_orange_jackolantern")
        || str_eq(s, "halloween.pumpkin_orange_small")
        || str_eq(s, "halloween.pumpkin_yellow")
        || str_eq(s, "halloween.pumpkin_yellow_jackolantern")
        || str_eq(s, "halloween.pumpkin_yellow_small")
        || str_eq(s, "halloween.ribcage")
        || str_eq(s, "halloween.scarecrow")
        || str_eq(s, "halloween.shrine")
        || str_eq(s, "halloween.shrine_candles")
        || str_eq(s, "halloween.sign_both")
        || str_eq(s, "halloween.sign_left")
        || str_eq(s, "halloween.sign_right")
        || str_eq(s, "halloween.skull")
        || str_eq(s, "halloween.skull_candle")
        || str_eq(s, "halloween.tractor")
        || str_eq(s, "halloween.tree_dead_large")
        || str_eq(s, "halloween.tree_dead_large_decorated")
        || str_eq(s, "halloween.tree_dead_medium")
        || str_eq(s, "halloween.tree_dead_small")
        || str_eq(s, "halloween.tree_pine_orange_large")
        || str_eq(s, "halloween.tree_pine_orange_medium")
        || str_eq(s, "halloween.tree_pine_orange_small")
        || str_eq(s, "halloween.tree_pine_yellow_large")
        || str_eq(s, "halloween.tree_pine_yellow_medium")
        || str_eq(s, "halloween.tree_pine_yellow_small")
        || str_eq(s, "halloween.wagon")
        || str_eq(s, "halloween.wagon_hay")
        || str_eq(s, "halloween.wooden_gate")
        || str_eq(s, "halloween.wooden_gate_halloween")
        || str_eq(s, "halloween.tractor_front_wheel")
        || str_eq(s, "halloween.tractor_rear_wheel")
        || str_eq(s, "halloween.tractor_steeringwheel")
        || str_eq(s, "halloween.wagon_wheel")
}

fn furniture_model(s: &str) -> (res: bool)
    ensures
        res == is_furniture_model(s@),
{
    str_eq(s, "furniture.armchair")
        || str_eq(s, "furniture.armchair_pillows")
        || str_eq(s, "furniture.bed_double_A")
        || str_eq(s, "furniture.bed_double_B")
        || str_eq(s, "furniture.bed_single_A")
        || str_eq(s, "furniture.bed_single_B")
        || str_eq(s, "furniture.book_set")
        || str_eq(s, "furniture.book_single")
        || str_eq(s, "furniture.cabinet_medium")
        || str_eq(s, "furniture.cabinet_medium_decorated")
        || str_eq(s, "furniture.cabinet_small")
        || str_eq(s, "furniture.cabinet_small_decorated")
        || str_eq(s, "furniture.cactus_medium_A")
        || str_eq(s, "furniture.cactus_medium_B")
        || str_eq(s, "furniture.cactus_small_A")
        || str_eq(s, "furniture.cactus_small_B")
        || str_eq(s, "furniture.chair_A")
        || str_eq(s, "furniture.chair_A_wood")
        || str_eq(s, "furniture.chair_B")
        || str_eq(s, "furniture.chair_B_wood")
        || str_eq(s, "furniture.chair_C")
        || str_eq(s, "furniture.chair_desk_A")
        || str_eq(s, "furniture.chair_desk_B")
        || str_eq(s, "furniture.chair_stool")
        || str_eq(s, "furniture.chair_stool_wood")
        || str_eq(s, "furniture.couch")
        || str_eq(s, "furniture.couch_pillows")
        || str_eq(s, "furniture.cup")
        || str_eq(s, "furniture.cup_pencils")
        || str_eq(s, "furniture.desk")
        || str_eq(s, "furniture.desk_decorated")
        || str_eq(s, "furniture.desk_large")
        || str_eq(s, "furniture.desk_large_decorated")
        || str_eq(s, "furniture.gameconsole_handheld")
        || str_eq(s, "furniture.keyboard")
        || str_eq(s, "furniture.lamp_desk")
        || str_eq(s, "furniture.lamp_desk_headphones")
        || str_eq(s, "furniture.lamp_standing")
        || str_eq(s, "furniture.lamp_table")
        || str_eq(s, "furniture.monitor")
        || str_eq(s, "furniture.mouse")
        || str_eq(s, "furniture.mousepad_A")
        || str_eq(s, "furniture.mousepad_B")
        || str_eq(s, "furniture.mousepad_large_A")
        || str_eq(s, "furniture.mousepad_large_B")
        || str_eq(s, "furniture.mug_A")
        || str_eq(s, "furniture.mug_B")
        || str_eq(s, "furniture.pictureframe_large_A")
        || str_eq(s, "furniture.pictureframe_large_B")
        || str_eq(s, "furniture.pictureframe_medium")
        || str_eq(s, "furniture.pictureframe_small_A")
        || str_eq(s, "furniture.pictureframe_small_B")
        || str_eq(s, "furniture.pictureframe_small_C")
        || str_eq(s, "furniture.pictureframe_standing_A")
        || str_eq(s, "furniture.pictureframe_standing_B")
        || str_eq(s, "furniture.pillow_A")
        || str_eq(s, "furniture.pillow_B")
        || str_eq(s, "furniture.rug_oval_A")
        || str_eq(s, "furniture.rug_oval_B")
        || str_eq(s, "furniture.rug_rectangle_A")
        || str_eq(s, "furniture.rug_rectangle_B")
        || str_eq(s, "furniture.rug_rectangle_stripes_A")
        || str_eq(s, "furniture.rug_rectangle_stripes_B")
        || str_eq(s, "furniture.shelf_A_big")
        || str_eq(s, "furniture.shelf_A_small")
        || str_eq(s, "furniture.shelf_B_large")
        || str_eq(s, "furniture.shelf_B_large_decorated")
        || str_eq(s, "furniture.shelf_B_small")
        || str_eq(s, "furniture.shelf_B_small_decorated")
        || str_eq(s, "furniture.table_low")
        || str_eq(s, "furniture.table_low_decorated")
        || str_eq(s, "furniture.table_medium")
        || str_eq(s, "furniture.table_medium_long")
        || str_eq(s, "furniture.table_small")
}

fn forest_model(s: &str) -> (res: bool)
    ensures
        res == is_forest_model(s@),
{
    str_eq(s, "forest.Bush_1_A_Color1")
        || str_eq(s, "forest.Bush_1_B_Color1")
        || str_eq(s, "forest.Bush_1_C_Color1")
        || str_eq(s, "forest.Bush_1_D_Color1")
        || str_eq(s, "forest.Bush_1_E_Color1")
        || str_eq(s, "forest.Bush_1_F_Color1")
        || str_eq(s, "forest.Bush_1_G_Color1")
        || str_eq(s, "forest.Bush_2_A_Color1")
        || str_eq(s, "forest.Bush_2_B_Color1")
        || str_eq(s, "forest.Bush_2_C_Color1")
        || str_eq(s, "forest.Bush_2_D_Color1")
        || str_eq(s, "forest.Bush_2_E_Color1")
        || str_eq(s, "forest.Bush_2_F_Color1")
        || str_eq(s, "forest.Bush_3_A_Color1")
        || str_eq(s, "forest.Bush_3_B_Color1")
        || str_eq(s, "forest.Bush_3_C_Color1")
        || str_eq(s, "forest.Bush_4_A_Color1")
        || str_eq(s, "forest.Bush_4_B_Color1")
        || str_eq(s, "forest.Bush_4_C_Color1")
        || str_eq(s, "forest.Bush_4_D_Color1")
        || str_eq(s, "forest.Bush_4_E_Color1")
        || str_eq(s, "forest.Bush_4_F_Color1")
        || str_eq(s, "forest.Grass_1_A_Color1")
        || str_eq(s, "forest.Grass_1_A_Singlesided_Color1")
        || str_eq(s, "forest.Grass_1_B_Color1")
        || str_eq(s, "forest.Grass_1_B_Singlesided_Color1")
        || str_eq(s, "forest.Grass_1_C_Color1")
        || str_eq(s, "forest.Grass_1_C_Singlesided_Color1")
        || str_eq(s, "forest.Grass_1_D_Color1")
        || str_eq(s, "forest.Grass_1_D_Singlesided_Color1")
        || str_eq(s, "forest.Grass_2_A_Color1")
        || str_eq(s, "forest.Grass_2_A_Singlesided_Color1")
        || str_eq(s, "forest.Grass_2_B_Color1")
        || str_eq(s, "forest.Grass_2_B_Singlesided_Color1")
        || str_eq(s, "forest.Grass_2_C_Color1")
        || str_eq(s, "forest.Grass_2_C_Singlesided_Color1")
        || str_eq(s, "forest.Grass_2_D_Color1")
        || str_eq(s, "forest.Grass_2_D_Singlesided_Color1")
        || str_eq(s, "forest.Hill_2x2x2_Color1")
        || str_eq(s, "forest.Hill_2x2x4_Color1")
        || str_eq(s, "forest.Hill_2x2x8_Color1")
        || str_eq(s, "forest.Hill_4x2x2_Color1")
        || str_eq(s, "forest.Hill_4x2x4_Color1")
        || str_eq(s, "forest.Hill_4x2x8_Color1")
        || str_eq(s, "forest.Hill_4x4x2_Color1")
        || str_eq(s, "forest.Hill_4x4x4_Color1")
        || str_eq(s, "forest.Hill_4x4x8_Color1")
        || str_eq(s, "forest.Hill_8x4x2_Color1")
        || str_eq(s, "forest.Hill_8x4x4_Color1")
        || str_eq(s, "forest.Hill_8x4x8_Color1")
        || str_eq(s, "forest.Hill_8x8x2_Color1")
        || str_eq(s, "forest.Hill_8x8x4_Color1")
        || str_eq(s, "forest.Hill_8x8x8_Color1")
        || str_eq(s, "forest.Hill_12x6x2_Color1")
        || str_eq(s, "forest.Hill_12x6x4_Color1")
        || str_eq(s, "forest.Hill_12x6x8_Color1")
        || str_eq(s, "forest.Hill_12x12x2_Color1")
        || str_eq(s, "forest.Hill_12x12x4_Color1")
        || str_eq(s, "forest.Hill_12x12x8_Color1")
        || str_eq(s, "forest.Hill_Cliff_A_InnerCorner_Color1")
        || str_eq(s, "forest.Hill_Cliff_A_OuterCorner_Color1")
        || str_eq(s, "forest.Hill_Cliff_B_Side_Color1")
        || str_eq(s, "forest.Hill_Cliff_C_InnerCorner_Color1")
        || str_eq(s, "forest.Hill_Cliff_C_OuterCorner_Color1")
        || str_eq(s, "forest.Hill_Cliff_D_Side_Color1")
        || str_eq(s, "forest.Hill_Cliff_E_Color1")
        || str_eq(s, "forest.Hill_Cliff_F_Side_Color1")
        || str_eq(s, "forest.Hill_Cliff_G_InnerCorner_Color1")
        || str_eq(s, "forest.Hill_Cliff_G_OuterCorner_Color1")
        || str_eq(s, "forest.Hill_Cliff_H_Side_Color1")
        || str_eq(s, "forest.Hill_Cliff_I_InnerCorner_Color1")
        || str_eq(s, "forest.Hill_Cliff_I_OuterCorner_Color1")
        || str_eq(s, "forest.Hill_Cliff_Tall_A_InnerCorner_Color1")
        || str_eq(s, "forest.Hill_Cliff_Tall_A_OuterCorner_Color1")
        || str_eq(s, "forest.Hill_Cliff_Tall_B_Side_Color1")
        || str_eq(s, "forest.Hill_Cliff_Tall_C_InnerCorner_Color1")
        || str_eq(s, "forest.Hill_Cliff_Tall_C_OuterCorner_Color1")
        || str_eq(s, "forest.Hill_Cliff_Tall_D_Side_Color1")
        || str_eq(s, "forest.Hill_Cliff_Tall_E_Color1")
        || str_eq(s, "forest.Hill_Cliff_Tall_F_Side_Color1")
        || str_eq(s, "forest.Hill_Cliff_Tall_G_InnerCorner_Color1")
        || str_eq(s, "forest.Hill_Cliff_Tall_G_OuterCorner_Color1")
        || str_eq(s, "forest.Hill_Cliff_Tall_H_Side_Color1")
        || str_eq(s, "forest.Hill_Cliff_Tall_I_InnerCorner_Color1")
        || str_eq(s, "forest.Hill_Cliff_Tall_I_OuterCorner_Color1")
        || str_eq(s, "forest.Hill_Top_A_InnerCorner_Color1")
        || str_eq(s, "forest.Hill_Top_A_OuterCorner_Color1")
        || str_eq(s, "forest.Hill_Top_B_Side_Color1")
        || str_eq(s, "forest.Hill_Top_C_InnerCorner_Color1")
        || str_eq(s, "forest.Hill_Top_C_OuterCorner_Color1")
        || str_eq(s, "forest.Hill_Top_D_Side_Color1")
        || str_eq(s, "forest.Hill_Top_E_Cap_Color1")
        || str_eq(s, "forest.Hill_Top_E_Center_Color1")
        || str_eq(s, "forest.Hill_Top_F_Side_Color1")
        || str_eq(s, "forest.Hill_Top_G_InnerCorner_Color1")
        || str_eq(s, "forest.Hill_Top_G_OuterCorner_Color1")
        || str_eq(s, "forest.Hill_Top_H_Side_Color1")
        || str_eq(s, "forest.Hill_Top_I_InnerCorner_Color1")
        || str_eq(s, "forest.Hill_Top_I_OuterCorner_Color1")
        || str_eq(s, "forest.Rock_1_A_Color1")
        || str_eq(s, "forest.Rock_1_B_Color1")
        || str_eq(s, "forest.Rock_1_C_Color1")
        || str_eq(s, "forest.Rock_1_D_Color1")
        || str_eq(s, "forest.Rock_1_E_Color1")
        || str_eq(s, "forest.Rock_1_F_Color1")
        || str_eq(s, "forest.Rock_1_G_Color1")
        || str_eq(s, "forest.Rock_1_H_Color1")
        || str_eq(s, "forest.Rock_1_I_Color1")
        || str_eq(s, "forest.Rock_1_J_Color1")
        || str_eq(s, "forest.Rock_1_K_Color1")
        || str_eq(s, "forest.Rock_1_L_Color1")
        || str_eq(s, "forest.Rock_1_M_Color1")
        || str_eq(s, "forest.Rock_1_N_Color1")
        || str_eq(s, "forest.Rock_1_O_Color1")
        || str_eq(s, "forest.Rock_1_P_Color1")
        || str_eq(s, "forest.Rock_1_Q_Color1")
        || str_eq(s, "forest.Rock_2_A_Color1")
        || str_eq(s, "forest.Rock_2_B_Color1")
        || str_eq(s, "forest.Rock_2_C_Color1")
        || str_eq(s, "forest.Rock_2_D_Color1")
        || str_eq(s, "forest.Rock_2_E_Color1")
        || str_eq(s, "forest.Rock_2_F_Color1")
        || str_eq(s, "forest.Rock_2_G_Color1")
        || str_eq(s, "forest.Rock_2_H_Color1")
        || str_eq(s, "forest.Rock_3_A_Color1")
        || str_eq(s, "forest.Rock_3_B_Color1")
        || str_eq(s, "forest.Rock_3_C_Color1")
        || str_eq(s, "forest.Rock_3_D_Color1")
        || str_eq(s, "forest.Rock_3_E_Color1")
        || str_eq(s, "forest.Rock_3_F_Color1")
        || str_eq(s, "forest.Rock_3_G_Color1")
        || str_eq(s, "forest.Rock_3_H_Color1")
        || str_eq(s, "forest.Rock_3_I_Color1")
        || str_eq(s, "forest.Rock_3_J_Color1")
        || str_eq(s, "forest.Rock_3_K_Color1")
        || str_eq(s, "forest.Rock_3_L_Color1")
        || str_eq(s, "forest.Rock_3_M_Color1")
        || str_eq(s, "forest.Rock_3_N_Color1")
        || str_eq(s, "forest.Rock_3_O_Color1")
        || str_eq(s, "forest.Rock_3_P_Color1")
        || str_eq(s, "forest.Rock_3_Q_Color1")
        || str_eq(s, "forest.Rock_3_R_Color1")
        || str_eq(s, "forest.Rock_4_A_Color1")
        || str_eq(s, "forest.Rock_4_B_Color1")
        || str_eq(s, "forest.Rock_4_C_Color1")
        || str_eq(s, "forest.Rock_4_D_Color1")
        || str_eq(s, "forest.Rock_4_E_Color1")
        || str_eq(s, "forest.Rock_4_F_Color1")
        || str_eq(s, "forest.Rock_4_G_Color1")
        || str_eq(s, "forest.Rock_4_H_Color1")
        || str_eq(s, "forest.Rock_5_A_Color1")
        || str_eq(s, "forest.Rock_5_B_Color1")
        || str_eq(s, "forest.Rock_5_C_Color1")
        || str_eq(s, "forest.Rock_5_D_Color1")
        || str_eq(s, "forest.Rock_5_E_Color1")
        || str_eq(s, "forest.Rock_5_F_Color1")
        || str_eq(s, "forest.Rock_5_G_Color1")
        || str_eq(s, "forest.Rock_5_H_Color1")
        || str_eq(s, "forest.Rock_6_A_Color1")
        || str_eq(s, "forest.Rock_6_B_Color1")
        || str_eq(s, "forest.Rock_6_C_Color1")
        || str_eq(s, "forest.Rock_6_D_Color1")
        || str_eq(s, "forest.Rock_6_E_Color1")
        || str_eq(s, "forest.Rock_6_F_Color1")
        || str_eq(s, "forest.Rock_6_G_Color1")
        || str_eq(s, "forest.Rock_6_H_Color1")
        || str_eq(s, "forest.Tree_1_A_Color1")
        || str_eq(s, "forest.Tree_1_B_Color1")
        || str_eq(s, "forest.Tree_1_C_Color1")
        || str_eq(s, "forest.Tree_2_A_Color1")
        || str_eq(s, "forest.Tree_2_B_Color1")
        || str_eq(s, "forest.Tree_2_C_Color1")
        || str_eq(s, "forest.Tree_2_D_Color1")
        || str_eq(s, "forest.Tree_2_E_Color1")
        || str_eq(s, "forest.Tree_3_A_Color1")
        || str_eq(s, "forest.Tree_3_B_Color1")
        || str_eq(s, "forest.Tree_3_C_Color1")
        || str_eq(s, "forest.Tree_4_A_Color1")
        || str_eq(s, "forest.Tree_4_B_Color1")
        || str_eq(s, "forest.Tree_4_C_Color1")
        || str_eq(s, "forest.Tree_5_A_Color1")
        || str_eq(s, "forest.Tree_5_B_Color1")
        || str_eq(s, "forest.Tree_5_C_Color1")
        || str_eq(s, "forest.Tree_5_D_Color1")
        || str_eq(s, "forest.Tree_5_E_Color1")
        || str_eq(s, "forest.Tree_5_F_Color1")
        || str_eq(s, "forest.Tree_6_A_Color1")
        || str_eq(s, "forest.Tree_6_B_Color1")
        || str_eq(s, "forest.Tree_6_C_Color1")
        || str_eq(s, "forest.Tree_7_A_Color1")
        || str_eq(s, "forest.Tree_7_B_Color1")
        || str_eq(s, "forest.Tree_7_C_Color1")
        || str_eq(s, "forest.Tree_Bare_1_A_Color1")
        || str_eq(s, "forest.Tree_Bare_1_B_Color1")
        || str_eq(s, "forest.Tree_Bare_1_C_Color1")
        || str_eq(s, "forest.Tree_Bare_2_A_Color1")
        || str_eq(s, "forest.Tree_Bare_2_B_Color1")
        || str_eq(s, "forest.Tree_Bare_2_C_Color1")
}

fn weapons_model(s: &str) -> (res: bool)
    ensures
        res == is_weapons_model(s@),
{
    str_eq(s, "weapons.arrow_A")
        || str_eq(s, "weapons.arrow_B")
        || str_eq(s, "weapons.arrow_C")
        || str_eq(s, "weapons.axe_A")
        || str_eq(s, "weapons.axe_B")
        || str_eq(s, "weapons.axe_C")
        || str_eq(s, "weapons.axe_D")
        || str_eq(s, "weapons.bow_A")
        || str_eq(s, "weapons.bow_A_withString")
        || str_eq(s, "weapons.bow_B")
        || str_eq(s, "weapons.bow_B_withString")
        || str_eq(s, "weapons.bow_C")
        || str_eq(s, "weapons.bow_C_withString")
        || str_eq(s, "weapons.dagger_A")
        || str_eq(s, "weapons.dagger_B")
        || str_eq(s, "weapons.dagger_C")
        || str_eq(s, "weapons.fistweapon_A")
        || str_eq(s, "weapons.fistweapon_A_stacked")
        || str_eq(s, "weapons.fistweapon_B")
        || str_eq(s, "weapons.fistweapon_B_stacked")
        || str_eq(s, "weapons.fistweapon_C_left")
        || str_eq(s, "weapons.fistweapon_C_right")
        || str_eq(s, "weapons.fistweapon_C_stacked")
        || str_eq(s, "weapons.halberd")
        || str_eq(s, "weapons.hammer_A")
        || str_eq(s, "weapons.hammer_B")
        || str_eq(s, "weapons.hammer_C")
        || str_eq(s, "weapons.hammer_D")
        || str_eq(s, "weapons.scythe")
        || str_eq(s, "weapons.shield_A")
        || str_eq(s, "weapons.shield_B")
        || str_eq(s, "weapons.shield_C")
        || str_eq(s, "weapons.shield_D")
        || str_eq(s, "weapons.spear_A")
        || str_eq(s, "weapons.spear_B")
        || str_eq(s, "weapons.staff_A")
        || str_eq(s, "weapons.staff_B")
        || str_eq(s, "weapons.staff_C")
        || str_eq(s, "weapons.staff_D")
        || str_eq(s, "weapons.sword_A")
        || str_eq(s, "weapons.sword_B")
        || str_eq(s, "weapons.sword_C")
        || str_eq(s, "weapons.sword_D")
        || str_eq(s, "weapons.sword_E")
        || str_eq(s, "weapons.sword_F")
        || str_eq(s, "weapons.sword_G")
        || str_eq(s, "weapons.wand_A")
        || str_eq(s, "weapons.wand_B")
}

fn dungeon_model(s: &str) -> (res: bool)
    ensures
        res == is_dungeon_model(s@),
{
    str_eq(s, "dungeon.banner_blue")
        || str_eq(s, "dungeon.banner_brown")
        || str_eq(s, "dungeon.banner_green")
        || str_eq(s, "dungeon.banner_patternA_blue")
        || str_eq(s, "dungeon.banner_patternA_brown")
        || str_eq(s, "dungeon.banner_patternA_green")
        || str_eq(s, "dungeon.banner_patternA_red")
        || str_eq(s, "dungeon.banner_patternA_white")
        || str_eq(s, "dungeon.banner_patternA_yellow")
        || str_eq(s, "dungeon.banner_patternB_blue")
        || str_eq(s, "dungeon.banner_patternB_brown")
        || str_eq(s, "dungeon.banner_patternB_green")
        || str_eq(s, "dungeon.banner_patternB_red")
        || str_eq(s, "dungeon.banner_patternB_white")
        || str_eq(s, "dungeon.banner_patternB_yellow")
        || str_eq(s, "dungeon.banner_patternC_blue")
        || str_eq(s, "dungeon.banner_patternC_brown")
        || str_eq(s, "dungeon.banner_patternC_green")
        || str_eq(s, "dungeon.banner_patternC_red")
        || str_eq(s, "dungeon.banner_patternC_white")
        || str_eq(s, "dungeon.banner_patternC_yellow")
        || str_eq(s, "dungeon.banner_red")
        || str_eq(s, "dungeon.banner_shield_blue")
        || str_eq(s, "dungeon.banner_shield_brown")
        || str_eq(s, "dungeon.banner_shield_green")
        || str_eq(s, "dungeon.banner_shield_red")
        || str_eq(s, "dungeon.banner_shield_white")
        || str_eq(s, "dungeon.banner_shield_yellow")
        || str_eq(s, "dungeon.banner_thin_blue")
        || str_eq(s, "dungeon.banner_thin_brown")
        || str_eq(s, "dungeon.banner_thin_green")
        || str_eq(s, "dungeon.banner_thin_red")
        || str_eq(s, "dungeon.banner_thin_white")
        || str_eq(s, "dungeon.banner_thin_yellow")
        || str_eq(s, "dungeon.banner_triple_blue")
        || str_eq(s, "dungeon.banner_triple_brown")
        || str_eq(s, "dungeon.banner_triple_green")
        || str_eq(s, "dungeon.banner_triple_red")
        || str_eq(s, "dungeon.banner_triple_white")
        || str_eq(s, "dungeon.banner_triple_yellow")
        || str_eq(s, "dungeon.banner_white")
        || str_eq(s, "dungeon.banner_yellow")
        || str_eq(s, "dungeon.bar_innercorner")
        || str_eq(s, "dungeon.bar_outercorner")
        || str_eq(s, "dungeon.bar_straight_A")
        || str_eq(s, "dungeon.bar_straight_A_short")
        || str_eq(s, "dungeon.bar_straight_B")
        || str_eq(s, "dungeon.bar_straight_B_short")
        || str_eq(s, "dungeon.bar_straight_C")
        || str_eq(s, "dungeon.bar_straight_C_short")
        || str_eq(s, "dungeon.barrel_large")
        || str_eq(s, "dungeon.barrel_large_decorated")
        || str_eq(s, "dungeon.barrel_small")
        || str_eq(s, "dungeon.barrel_small_stack")
        || str_eq(s, "dungeon.barrier")
        || str_eq(s, "dungeon.barrier_column_half")
        || str_eq(s, "dungeon.barrier_column")
        || str_eq(s, "dungeon.barrier_corner")
        || str_eq(s, "dungeon.barrier_half")
        || str_eq(s, "dungeon.bartop_A_large")
        || str_eq(s, "dungeon.bartop_A_medium")
        || str_eq(s, "dungeon.bartop_A_medium")
        || str_eq(s, "dungeon.bartop_B_large")
        || str_eq(s, "dungeon.bartop_B_medium")
        || str_eq(s, "dungeon.bartop_B_small")
        || str_eq(s, "dungeon.bed_A_double")
        || str_eq(s, "dungeon.bed_A_single")
        || str_eq(s, "dungeon.bed_A_stacked")
        || str_eq(s, "dungeon.bed_B_double")
        || str_eq(s, "dungeon.bed_B_single")
        || str_eq(s, "dungeon.bed_decorated")
        || str_eq(s, "dungeon.bed_floor")
        || str_eq(s, "dungeon.bed_floor")
        || str_eq(s, "dungeon.bench")
        || str_eq(s, "dungeon.book_brown")
        || str_eq(s, "dungeon.book_grey")
        || str_eq(s, "dungeon.book_grey")
        || str_eq(s, "dungeon.bookcase_double")
        || str_eq(s, "dungeon.bookcase_double")
        || str_eq(s, "dungeon.bookcase_double")
        || str_eq(s, "dungeon.bookcase_single")
        || str_eq(s, "dungeon.bookcase_single")
        || str_eq(s, "dungeon.bookcase_single")
        || str_eq(s, "dungeon.bottle_A_brown")
        || str_eq(s, "dungeon.bottle_A_green")
        || str_eq(s, "dungeon.bottle_A_labeled_brown")
        || str_eq(s, "dungeon.bottle_A_labeled_green")
        || str_eq(s, "dungeon.bottle_B_brown")
        || str_eq(s, "dungeon.bottle_B_green")
        || str_eq(s, "dungeon.bottle_C_brown")
        || str_eq(s, "dungeon.bottle_C_green")
        || str_eq(s, "dungeon.box_large")
        || str_eq(s, "dungeon.box_small")
        || str_eq(s, "dungeon.box_small_decorated")
        || str_eq(s, "dungeon.box_stacked")
        || str_eq(s, "dungeon.bucket")
        || str_eq(s, "dungeon.bucket_pickaxes")
        || str_eq(s, "dungeon.candle")
        || str_eq(s, "dungeon.candle_lit")
        || str_eq(s, "dungeon.candle_melted")
        || str_eq(s, "dungeon.candle_thin")
        || str_eq(s, "dungeon.candle_thin_lit")
        || str_eq(s, "dungeon.candle_triple")
        || str_eq(s, "dungeon.ceiling_tile")
        || str_eq(s, "dungeon.chair")
        || str_eq(s, "dungeon.chest")
        || str_eq(s, "dungeon.chest_gold")
        || str_eq(s, "dungeon.chest_mimic_open")
        || str_eq(s, "dungeon.coin_stack_large")
        || str_eq(s, "dungeon.coin_stack_medium")
        || str_eq(s, "dungeon.coin_stack_small")
        || str_eq(s, "dungeon.column")
        || str_eq(s, "dungeon.crate_large")
        || str_eq(s, "dungeon.crate_large_decorated")
        || str_eq(s, "dungeon.crate_small")
        || str_eq(s, "dungeon.crates_stacked")
        || str_eq(s, "dungeon.floor_dirt_large")
        || str_eq(s, "dungeon.floor_dirt_large_rocky")
        || str_eq(s, "dungeon.floor_dirt_small_A")
        || str_eq(s, "dungeon.floor_dirt_small_B")
        || str_eq(s, "dungeon.floor_dirt_small_B")
        || str_eq(s, "dungeon.floor_dirt_small_corner")
        || str_eq(s, "dungeon.floor_dirt_small_D")
        || str_eq(s, "dungeon.floor_dirt_small_weeds")
        || str_eq(s, "dungeon.floor_foundation_allsides")
        || str_eq(s, "dungeon.floor_foundation_corner")
        || str_eq(s, "dungeon.floor_foundation_diagonal_corner")
        || str_eq(s, "dungeon.floor_foundation_front")
        || str_eq(s, "dungeon.floor_foundation_front_and_back")
        || str_eq(s, "dungeon.floor_foundation_front_and_sides")
        || str_eq(s, "dungeon.floor_tile_big_grate")
        || str_eq(s, "dungeon.floor_tile_big_grate_open")
        || str_eq(s, "dungeon.floor_tile_extralarge_grates")
        || str_eq(s, "dungeon.floor_tile_extralarge_grates_open")
        || str_eq(s, "dungeon.floor_tile_grate")
        || str_eq(s, "dungeon.floor_tile_grate_open")
        || str_eq(s, "dungeon.floor_tile_large")
        || str_eq(s, "dungeon.floor_tile_large_rocks")
        || str_eq(s, "dungeon.floor_tile_small")
        || str_eq(s, "dungeon.floor_tile_small_broken_A")
        || str_eq(s, "dungeon.floor_tile_small_broken_B")
        || str_eq(s, "dungeon.floor_tile_small_corner")
        || str_eq(s, "dungeon.floor_tile_small_decorated")
        || str_eq(s, "dungeon.floor_tile_small_weeds_A")
        || str_eq(s, "dungeon.floor_tile_small_weeds_B")
        || str_eq(s, "dungeon.floor_wood_large")
        || str_eq(s, "dungeon.floor_wood_large_dark")
        || str_eq(s, "dungeon.floor_wood_small")
        || str_eq(s, "dungeon.floor_wood_small_dark")
        || str_eq(s, "dungeon.keg")
        || str_eq(s, "dungeon.keg_decorated")
        || str_eq(s, "dungeon.key_gold")
        || str_eq(s, "dungeon.keyring")
        || str_eq(s, "dungeon.keyring_hanging")
        || str_eq(s, "dungeon.pickaxe")
        || str_eq(s, "dungeon.pickaxe_gold")
        || str_eq(s, "dungeon.pillar")
        || str_eq(s, "dungeon.pillar_decorated")
        || str_eq(s, "dungeon.plate")
        || str_eq(s, "dungeon.plate")
        || str_eq(s, "dungeon.plate_food_B")
        || str_eq(s, "dungeon.plate_small")
        || str_eq(s, "dungeon.plate_small")
        || str_eq(s, "dungeon.post")
        || str_eq(s, "dungeon.rocks")
        || str_eq(s, "dungeon.rocks_decorated")
        || str_eq(s, "dungeon.rocks_gold")
        || str_eq(s, "dungeon.rocks_small")
        || str_eq(s, "dungeon.rubble_half")
        || str_eq(s, "dungeon.rubble_large")
        || str_eq(s, "dungeon.scaffold_beam_corner")
        || str_eq(s, "dungeon.scaffold_beam_wall")
        || str_eq(s, "dungeon.scaffold_beams_connected")
        || str_eq(s, "dungeon.scaffold_frame_large")
        || str_eq(s, "dungeon.scaffold_frame_small")
        || str_eq(s, "dungeon.scaffold_pillar_corner")
        || str_eq(s, "dungeon.scaffold_pillar_wall")
        || str_eq(s, "dungeon.scaffold_pillar_wall_cross")
        || str_eq(s, "dungeon.scaffold_pillar_wall_cross_top")
        || str_eq(s, "dungeon.scaffold_pillar_wall_torch")
        || str_eq(s, "dungeon.scaffold_pillars_connected")
        || str_eq(s, "dungeon.scaffold_pillars_connected_torch")
        || str_eq(s, "dungeon.shelf_large")
        || str_eq(s, "dungeon.shelf_small")
        || str_eq(s, "dungeon.shelf_small_books")
        || str_eq(s, "dungeon.shelf_small_candles")
        || str_eq(s, "dungeon.shelves")
        || str_eq(s, "dungeon.shelves_decorated")
        || str_eq(s, "dungeon.stairs")
        || str_eq(s, "dungeon.stairs_long")
        || str_eq(s, "dungeon.stairs_long_modular_center")
        || str_eq(s, "dungeon.stairs_long_modular_left")
        || str_eq(s, "dungeon.stairs_long_modular_right")
        || str_eq(s, "dungeon.stairs_modular_center")
        || str_eq(s, "dungeon.stairs_modular_left")
        || str_eq(s, "dungeon.stairs_modular_right")
        || str_eq(s, "dungeon.stairs_narrow")
        || str_eq(s, "dungeon.stairs_wall_left")
        || str_eq(s, "dungeon.stairs_wall_right")
        || str_eq(s, "dungeon.stairs_walled")
        || str_eq(s, "dungeon.stairs_wide")
        || str_eq(s, "dungeon.stairs_wood")
        || str_eq(s, "dungeon.stairs_wood_decorated")
        || str_eq(s, "dungeon.stool")
        || str_eq(s, "dungeon.stool_round")
        || str_eq(s, "dungeon.sword_shield")
        || str_eq(s, "dungeon.sword_shield_broken")
        || str_eq(s, "dungeon.sword_shield_gold")
        || str_eq(s, "dungeon.table_long")
        || str_eq(s, "dungeon.table_long_broken")
        || str_eq(s, "dungeon.table_long_decorated_A")
        || str_eq(s, "dungeon.table_long_decorated_B")
        || str_eq(s, "dungeon.table_long_decorated_C")
        || str_eq(s, "dungeon.table_long_tablecloth")
        || str_eq(s, "dungeon.table_long_tablecloth_decorated_A")
        || str_eq(s, "dungeon.table_medium")
        || str_eq(s, "dungeon.table_medium_broken")
        || str_eq(s, "dungeon.table_medium_decorated_A")
        || str_eq(s, "dungeon.table_medium_decorated_B")
        || str_eq(s, "dungeon.table_medium_tablecloth")
        || str_eq(s, "dungeon.table_medium_tablecloth_decorated_B")
        || str_eq(s, "dungeon.table_round_large")
        || str_eq(s, "dungeon.table_round_medium")
        || str_eq(s, "dungeon.table_round_small")
        || str_eq(s, "dungeon.table_small")
        || str_eq(s, "dungeon.table_small_decorated_A")
        || str_eq(s, "dungeon.table_small_decorated_B")
        || str_eq(s, "dungeon.table_small_decorated_C")
        || str_eq(s, "dungeon.torch")
        || str_eq(s, "dungeon.torch_lit")
        || str_eq(s, "dungeon.torch_lit")
        || str_eq(s, "dungeon.trunk_large_A")
        || str_eq(s, "dungeon.trunk_large_B")
        || str_eq(s, "dungeon.trunk_large_C")
        || str_eq(s, "dungeon.trunk_medium_A")
        || str_eq(s, "dungeon.trunk_medium_B")
        || str_eq(s, "dungeon.trunk_medium_C")
        || str_eq(s, "dungeon.trunk_small_A")
        || str_eq(s, "dungeon.trunk_small_B")
        || str_eq(s, "dungeon.trunk_small_C")
        || str_eq(s, "dungeon.wall")
        || str_eq(s, "dungeon.wall_arched")
        || str_eq(s, "dungeon.wall_archedwindow_gated")
        || str_eq(s, "dungeon.wall_archedwindow_gated_scaffold")
        || str_eq(s, "dungeon.wall_archedwindow_open")
        || str_eq(s, "dungeon.wall_broken")
        || str_eq(s, "dungeon.wall_corner")
        || str_eq(s, "dungeon.wall_corner_gated")
        || str_eq(s, "dungeon.wall_corner_scaffold")
        || str_eq(s, "dungeon.wall_corner_small")
        || str_eq(s, "dungeon.wall_cracked")
        || str_eq(s, "dungeon.wall_crossing")
        || str_eq(s, "dungeon.wall_doorway_sides")
        || str_eq(s, "dungeon.wall_doorway_Tsplit")
        || str_eq(s, "dungeon.wall_endcap")
        || str_eq(s, "dungeon.wall_gated")
        || str_eq(s, "dungeon.wall_half")
        || str_eq(s, "dungeon.wall_half_endcap")
        || str_eq(s, "dungeon.wall_half_endcap_sloped")
        || str_eq(s, "dungeon.wall_inset")
        || str_eq(s, "dungeon.wall_inset_candles")
        || str_eq(s, "dungeon.wall_inset_shelves")
        || str_eq(s, "dungeon.wall_inset_shelves_broken")
        || str_eq(s, "dungeon.wall_inset_shelves_decoratedA")
        || str_eq(s, "dungeon.wall_inset_shelves_decoratedB")
        || str_eq(s, "dungeon.wall_open_scaffold")
        || str_eq(s, "dungeon.wall_pillar")
        || str_eq(s, "dungeon.wall_scaffold")
        || str_eq(s, "dungeon.wall_shelves")
        || str_eq(s, "dungeon.wall_sloped")
        || str_eq(s, "dungeon.wall_Tsplit")
        || str_eq(s, "dungeon.wall_Tsplit_sloped")
        || str_eq(s, "dungeon.wall_window_closed")
        || str_eq(s, "dungeon.wall_window_closed_scaffold")
        || str_eq(s, "dungeon.wall_window_open")
        || str_eq(s, "dungeon.wall_window_open_scaffold")
        || str_eq(s, "dungeon.chest_empty")
        || str_eq(s, "dungeon.chest_empty_bottom")
        || str_eq(s, "dungeon.chest_lid")
        || str_eq(s, "dungeon.chest_gold")
        || str_eq(s, "dungeon.chest_large_closed")
        || str_eq(s, "dungeon.chest_large_empty_open")
        || str_eq(s, "dungeon.chest_large_empty_bottom")
        || str_eq(s, "dungeon.chest_large_empty_lid")
        || str_eq(s, "dungeon.chest_large_gold_closed")
        || str_eq(s, "dungeon.chest_large_gold_rigged")
        || str_eq(s, "dungeon.floor_tile_big_spikes_empty")
        || str_eq(s, "dungeon.floor_tile_big_spikes_poking")
        || str_eq(s, "dungeon.floor_tile_big_spikes_out")
        || str_eq(s, "dungeon.wall_doorway_empty")
        || str_eq(s, "dungeon.wall_doorway_scaffold_empty")
        || str_eq(s, "dungeon.wall_doorway_closed")
        || str_eq(s, "dungeon.wall_doorway_scaffold_closed")
        || str_eq(s, "dungeon.wall_doorway_scaffold_open")
        || str_eq(s, "dungeon.wall_doorway_closed")
        || str_eq(s, "dungeon.wall_door")
        || str_eq(s, "dungeon.bartop_A_small")
        || str_eq(s, "dungeon.bed_frame")
        || str_eq(s, "dungeon.book_tan")
        || str_eq(s, "dungeon.bookcase_double_decoratedA")
        || str_eq(s, "dungeon.bookcase_double_decoratedB")
        || str_eq(s, "dungeon.bookcase_single_decoratedA")
        || str_eq(s, "dungeon.bookcase_single_decoratedB")
        || str_eq(s, "dungeon.floor_dirt_small_C")
        || str_eq(s, "dungeon.plate_food_A")
        || str_eq(s, "dungeon.torch_mounted")
        || str_eq(s, "dungeon.chest_large_gold_open")
        || str_eq(s, "dungeon.wall_doorway_open")
}

fn city_model(s: &str) -> (res: bool)
    ensures
        res == is_city_model(s@),
{
    str_eq(s, "city.base")
        || str_eq(s, "city.bench")
        || str_eq(s, "city.box_A")
        || str_eq(s, "city.box_B")
        || str_eq(s, "city.building_A")
        || str_eq(s, "city.building_A_withoutBase")
        || str_eq(s, "city.building_B")
        || str_eq(s, "city.building_B_withoutBase")
        || str_eq(s, "city.building_C")
        || str_eq(s, "city.building_C_withoutBase")
        || str_eq(s, "city.building_D")
        || str_eq(s, "city.building_D_withoutBase")
        || str_eq(s, "city.building_E")
        || str_eq(s, "city.building_E_withoutBase")
        || str_eq(s, "city.building_F")
        || str_eq(s, "city.building_F_withoutBase")
        || str_eq(s, "city.building_G")
        || str_eq(s, "city.building_G_withoutBase")
        || str_eq(s, "city.building_H")
        || str_eq(s, "city.building_H_withoutBase")
        || str_eq(s, "city.bush")
        || str_eq(s, "city.bush_A")
        || str_eq(s, "city.bush_B")
        || str_eq(s, "city.bush_C")
        || str_eq(s, "city.car_hatchback")
        || str_eq(s, "city.car_police")
        || str_eq(s, "city.car_sedan")
        || str_eq(s, "city.car_stationwagon")
        || str_eq(s, "city.car_taxi")
        || str_eq(s, "city.dumpster")
        || str_eq(s, "city.firehydrant")
        || str_eq(s, "city.park_base")
        || str_eq(s, "city.park_base_decorated_bushes")
        || str_eq(s, "city.park_base_decorated_trees")
        || str_eq(s, "city.park_road_corner")
        || str_eq(s, "city.park_road_corner_decorated")
        || str_eq(s, "city.park_road_junction")
        || str_eq(s, "city.park_road_junction_decorated_A")
        || str_eq(s, "city.park_road_junction_decorated_B")
        || str_eq(s, "city.park_road_junction_decorated_C")
        || str_eq(s, "city.park_road_straight")
        || str_eq(s, "city.park_road_straight_decorated_A")
        || str_eq(s, "city.park_road_straight_decorated_B")
        || str_eq(s, "city.park_road_tsplit")
        || str_eq(s, "city.park_road_tsplit_decorated")
        || str_eq(s, "city.park_wall_entry")
        || str_eq(s, "city.park_wall_entry_decorated")
        || str_eq(s, "city.park_wall_innerCorner")
        || str_eq(s, "city.park_wall_innerCorner_decorated")
        || str_eq(s, "city.park_wall_outerCorner")
        || str_eq(s, "city.park_wall_outerCorner_decorated")
        || str_eq(s, "city.park_wall_straight")
        || str_eq(s, "city.park_wall_straight_decorated")
        || str_eq(s, "city.road_corner")
        || str_eq(s, "city.road_corner_curved")
        || str_eq(s, "city.road_junction")
        || str_eq(s, "city.road_straight")
        || str_eq(s, "city.road_straight_crossing")
        || str_eq(s, "city.road_tsplit")
        || str_eq(s, "city.streetlight")
        || str_eq(s, "city.streetlight_old_double")
        || str_eq(s, "city.streetlight_old_single")
        || str_eq(s, "city.trafficlight_A")
        || str_eq(s, "city.trafficlight_B")
        || str_eq(s, "city.trafficlight_C")
        || str_eq(s, "city.trash_A")
        || str_eq(s, "city.trash_B")
        || str_eq(s, "city.tree_A")
        || str_eq(s, "city.tree_B")
        || str_eq(s, "city.tree_C")
        || str_eq(s, "city.tree_D")
        || str_eq(s, "city.tree_E")
        || str_eq(s, "city.watertower")
}

fn block_model(s: &str) -> (res: bool)
    ensures
        res == is_block_model(s@),
{
    str_eq(s, "block.anvil")
        || str_eq(s, "block.apple")
        || str_eq(s, "block.barrel")
        || str_eq(s, "block.battery")
        || str_eq(s, "block.gift")
        || str_eq(s, "block.hay")
        || str_eq(s, "block.stone")
        || str_eq(s, "block.stone_dark")
        || str_eq(s, "block.trashcan")
        || str_eq(s, "block.water")
        || str_eq(s, "block.books_A")
        || str_eq(s, "block.books_B")
        || str_eq(s, "block.bricks_A")
        || str_eq(s, "block.bricks_B")
        || str_eq(s, "block.chest")
        || str_eq(s, "blocks.colored_block_blue")
        || str_eq(s, "block.colored_block_green")
        || str_eq(s, "block.colored_block_red")
        || str_eq(s, "block.colored_block_yellow")
        || str_eq(s, "block.crate")
        || str_eq(s, "block.decorative_block_blue")
        || str_eq(s, "block.decorative_block_green")
        || str_eq(s, "block.decorative_block_red")
        || str_eq(s, "block.decorative_block_yellow")
        || str_eq(s, "block.dirt")
        || str_eq(s, "block.dirt_with_grass")
        || str_eq(s, "block.dirt_with_snow")
        || str_eq(s, "blocks.dynamite")
        || str_eq(s, "block.glass")
        || str_eq(s, "block.grass")
        || str_eq(s, "block.grass_with_snow")
        || str_eq(s, "blocks.gravel")
        || str_eq(s, "block.gravel_with_grass")
        || str_eq(s, "block.gravel_with_snow")
        || str_eq(s, "block.hay_bale")
        || str_eq(s, "block.lava")
        || str_eq(s, "block.melon")
        || str_eq(s, "block.metal")
        || str_eq(s, "block.metalframe")
        || str_eq(s, "block.pipe")
        || str_eq(s, "block.prototype")
        || str_eq(s, "block.sand_A")
        || str_eq(s, "block.sand_B")
        || str_eq(s, "block.sand_with_grass")
        || str_eq(s, "block.sand_with_snow")
        || str_eq(s, "block.snow")
        || str_eq(s, "blocks.stone_with_copper")
        || str_eq(s, "block.stone_with_gold")
        || str_eq(s, "block.stone_with_silver")
        || str_eq(s, "block.striped_block_blue")
        || str_eq(s, "block.striped_block_green")
        || str_eq(s, "block.striped_block_red")
        || str_eq(s, "block.striped_block_yellow")
        || str_eq(s, "block.tree")
        || str_eq(s, "block.tree_with_snow")
        || str_eq(s, "block.vault")
        || str_eq(s, "block.wood")
        || str_eq(s, "blocks.computer")
        || str_eq(s, "computer")
}

/// Whether `s` names a decoration model that behaves as a computer.
pub open spec fn is_computer_model(s: Seq<char>) -> bool {
    ||| is_platformer_model(s)
    ||| is_platformer_blue_model(s)
    ||| is_medieval_model(s)
    ||| is_holiday_model(s)
    ||| is_halloween_model(s)
    ||| is_furniture_model(s)
    ||| is_forest_model(s)
    ||| is_weapons_model(s)
    ||| is_dungeon_model(s)
    ||| is_city_model(s)
    ||| is_block_model(s)
}

/// The kind of instance that a model name stands for; `None` for the level
/// change trigger, which has no instance yet, and for names it does not know.
pub open spec fn instance_kind_of(s: Seq<char>) -> Option<InstanceKind> {
    if is_computer_model(s) {
        Some(InstanceKind::DComputer)
    } else if s == "floor"@ || s == "viridian_house"@ || s == "viridian_floor"@ || s == "tree"@ {
        Some(InstanceKind::DFloor)
    } else if s == "platform"@ {
        Some(InstanceKind::DPlatform)
    } else if s == "table"@ {
        Some(InstanceKind::DTable)
    } else if s == "barrier"@ {
        Some(InstanceKind::EBarrier)
    } else if s == "gcyl"@ {
        Some(InstanceKind::EGcyl)
    } else if s == "light"@ {
        Some(InstanceKind::ELight)
    } else if s == "player"@ {
        Some(InstanceKind::EPlayer)
    } else if s == "pig"@ {
        Some(InstanceKind::EPig)
    } else if s == "menu_m"@ {
        Some(InstanceKind::EMenuM)
    } else if s == "menu_e"@ {
        Some(InstanceKind::EMenuE)
    } else if s == "menu_n"@ {
        Some(InstanceKind::EMenuN)
    } else if s == "menu_u"@ {
        Some(InstanceKind::EMenuU)
    } else {
        None
    }
}

fn is_computer_name(s: &str) -> (res: bool)
    ensures
        res == is_computer_model(s@),
{

    platformer_model(s)
        || platformer_blue_model(s)
        || medieval_model(s)
        || holiday_model(s)
        || halloween_model(s)
        || furniture_model(s)
        || forest_model(s)
        || weapons_model(s)
        || dungeon_model(s)
        || city_model(s)
        || block_model(s)
}

/// The kind of instance that the model name `s` stands for.
pub fn instance_from_str(s: &str) -> (res: Option<InstanceKind>)
    ensures
        res == instance_kind_of(s@),
{
    if is_computer_name(s) {
        Some(InstanceKind::DComputer)
    } else if str_eq(s, "floor") || str_eq(s, "viridian_house") || str_eq(s, "viridian_floor")
        || str_eq(s, "tree") {
        Some(InstanceKind::DFloor)
    } else if str_eq(s, "platform") {
        Some(InstanceKind::DPlatform)
    } else if str_eq(s, "table") {
        Some(InstanceKind::DTable)
    } else if str_eq(s, "barrier") {
        Some(InstanceKind::EBarrier)
    } else if str_eq(s, "gcyl") {
        Some(InstanceKind::EGcyl)
    } else if str_eq(s, "light") {
        Some(InstanceKind::ELight)
    } else if str_eq(s, "player") {
        Some(InstanceKind::EPlayer)
    } else if str_eq(s, "pig") {
        Some(InstanceKind::EPig)
    } else if str_eq(s, "menu_m") {
        Some(InstanceKind::EMenuM)
    } else if str_eq(s, "menu_e") {
        Some(InstanceKind::EMenuE)
    } else if str_eq(s, "menu_n") {
        Some(InstanceKind::EMenuN)
    } else if str_eq(s, "menu_u") {
        Some(InstanceKind::EMenuU)
    } else {
        None
    }
}

impl InstanceKind {
    /// Whether instances of this kind are decoration.
    pub open spec fn decor(self) -> bool {
        match self {
            InstanceKind::DComputer | InstanceKind::DFloor | InstanceKind::DPlatform
            | InstanceKind::DTable => true,
            _ => false,
        }
    }

    /// Whether instances of this kind are decoration; the level change
    /// trigger has no answer.
    pub fn is_decor(&self) -> (res: bool)
        requires
            *self != InstanceKind::ETriggerLevelChange,
        ensures
            res == self.decor(),
    {
        match self {
            InstanceKind::DComputer => true,
            InstanceKind::DFloor => true,
            InstanceKind::DPlatform => true,
            InstanceKind::DTable => true,
            _ => false,
        }
    }
}

/// The last position at which `s` occurs in `names`, if it occurs.
pub open spec fn last_position_of(names: Seq<Seq<char>>, s: Seq<char>) -> Option<int>
    decreases names.len(),
{
    if names.len() == 0 {
        None
    } else if names.last() == s {
        Some(names.len() - 1)
    } else {
        last_position_of(names.drop_last(), s)
    }
}

proof fn lemma_last_position_bounds(names: Seq<Seq<char>>, s: Seq<char>)
    ensures
        last_position_of(names, s) matches Some(i) ==> 0 <= i < names.len() && names[i] == s,
    decreases names.len(),
{
    if names.len() > 0 && names.last() != s {
        lemma_last_position_bounds(names.drop_last(), s);
    }
}

/// The entity model whose name is `s`: the last model of `map` with that
/// name, if there is one.
pub fn ref_ent_from_str(s: &str, map: &GameMap) -> (res: Option<LoadedEnttReference>)
    requires
        last_position_of(strings_view(map.payload.ern_data@), s@) matches Some(i) ==> i
            < map.ref_entities@.len(),
    ensures
        match last_position_of(strings_view(map.payload.ern_data@), s@) {
            Some(i) => res is Some && res->0@ == map.ref_entities@[i]@,
            None => res is None,
        },
{
    let ghost names = strings_view(map.payload.ern_data@);
    let n = map.payload.ern_data.len();
    let mut found: Option<usize> = None;
    let mut i: usize = 0;
    while i < n
        invariant
            names == strings_view(map.payload.ern_data@),
            n == names.len(),
            i <= n,
            match last_position_of(names.take(i as int), s@) {
                Some(j) => found == Some(j as usize),
                None => found is None,
            },
        decreases n - i,
    {
        assert(names.take((i + 1) as int).drop_last() =~= names.take(i as int));
        if str_eq(map.payload.ern_data[i].as_str(), s) {
            found = Some(i);
        }
        i = i + 1;
    }
    assert(names.take(n as int) =~= names);
    proof {
        lemma_last_position_bounds(names, s@);
    }
    match found {
        Some(j) => Some(map.ref_entities[j].clone()),
        None => None,
    }
}

/// No model name makes a level change trigger: the catalogue gives it no
/// instance.
pub proof fn lemma_no_trigger_kind(s: Seq<char>)
    ensures
        instance_kind_of(s) != Some(InstanceKind::ETriggerLevelChange),
{
}

/// Which kinds are decoration: the four decoration kinds (computers, floors,
/// platforms, tables) are, and none of the entity kinds is.
pub proof fn lemma_decor_kinds()
    ensures
        InstanceKind::DComputer.decor(),
        InstanceKind::DFloor.decor(),
        InstanceKind::DPlatform.decor(),
        InstanceKind::DTable.decor(),
        !InstanceKind::EBarrier.decor(),
        !InstanceKind::EGcyl.decor(),
        !InstanceKind::ELight.decor(),
        !InstanceKind::EPlayer.decor(),
        !InstanceKind::EPig.decor(),
        !InstanceKind::EMenuM.decor(),
        !InstanceKind::EMenuE.decor(),
        !InstanceKind::EMenuN.decor(),
        !InstanceKind::EMenuU.decor(),
{
}

/// Every decoration model name makes a decoration instance: each kit model
/// makes a computer, and "floor", "viridian_house", "viridian_floor",
/// "tree", "platform" and "table" make decoration too.
pub proof fn lemma_decoration_names(s: Seq<char>)
    ensures
        is_computer_model(s) ==> instance_kind_of(s) == Some(InstanceKind::DComputer),
        is_computer_model(s) || s == "floor"@ || s == "viridian_house"@ || s == "viridian_floor"@
            || s == "tree"@ || s == "platform"@ || s == "table"@ ==> (instance_kind_of(s) matches Some(
            k,
        ) && k.decor()),
        !is_computer_model(s) && (s == "floor"@ || s == "viridian_house"@ || s
            == "viridian_floor"@ || s == "tree"@) ==> instance_kind_of(s) == Some(InstanceKind::DFloor),
        instance_kind_of(s) matches Some(k) && k.decor() ==> is_computer_model(s) || s == "floor"@
            || s == "viridian_house"@ || s == "viridian_floor"@ || s == "tree"@ || s
            == "platform"@ || s == "table"@,
{
}

/// Each entity name that no kit model shares makes its own kind of entity
/// instance.
pub proof fn lemma_entity_names(s: Seq<char>)
    ensures
        !is_computer_model(s) && s == "barrier"@ ==> instance_kind_of(s) == Some(InstanceKind::EBarrier),
        !is_computer_model(s) && s == "gcyl"@ ==> instance_kind_of(s) == Some(InstanceKind::EGcyl),
        !is_computer_model(s) && s == "light"@ ==> instance_kind_of(s) == Some(InstanceKind::ELight),
        !is_computer_model(s) && s == "player"@ ==> instance_kind_of(s) == Some(InstanceKind::EPlayer),
        !is_computer_model(s) && s == "pig"@ ==> instance_kind_of(s) == Some(InstanceKind::EPig),
        !is_computer_model(s) && s == "menu_m"@ ==> instance_kind_of(s) == Some(InstanceKind::EMenuM),
        !is_computer_model(s) && s == "menu_e"@ ==> instance_kind_of(s) == Some(InstanceKind::EMenuE),
        !is_computer_model(s) && s == "menu_n"@ ==> instance_kind_of(s) == Some(InstanceKind::EMenuN),
        !is_computer_model(s) && s == "menu_u"@ ==> instance_kind_of(s) == Some(InstanceKind::EMenuU),
        !is_computer_model(s) && s == "platform"@ ==> instance_kind_of(s) == Some(InstanceKind::DPlatform),
        !is_computer_model(s) && s == "table"@ ==> instance_kind_of(s) == Some(InstanceKind::DTable),
{
    reveal_strlit("floor");
    reveal_strlit("viridian_house");
    reveal_strlit("viridian_floor");
    reveal_strlit("tree");
    reveal_strlit("platform");
    reveal_strlit("table");
    reveal_strlit("barrier");
    reveal_strlit("gcyl");
    reveal_strlit("light");
    reveal_strlit("player");
    reveal_strlit("pig");
    reveal_strlit("menu_m");
    reveal_strlit("menu_e");
    reveal_strlit("menu_n");
    reveal_strlit("menu_u");
    if s == "platform"@ {
        assert("platform"@.len() != "floor"@.len());
        assert("platform"@.len() != "viridian_house"@.len());
        assert("platform"@.len() != "viridian_floor"@.len());
        assert("platform"@.len() != "tree"@.len());
    }
    if s == "table"@ {
        assert("table"@[0] != "floor"@[0]);
        assert("table"@.len() != "viridian_house"@.len());
        assert("table"@.len() != "viridian_floor"@.len());
        assert("table"@.len() != "tree"@.len());
        assert("table"@.len() != "platform"@.len());
    }
    if s == "barrier"@ {
        assert("barrier"@.len() != "floor"@.len());
        assert("barrier"@.len() != "viridian_house"@.len());
        assert("barrier"@.len() != "viridian_floor"@.len());
        assert("barrier"@.len() != "tree"@.len());
        assert("barrier"@.len() != "platform"@.len());
        assert("barrier"@.len() != "table"@.len());
    }
    if s == "gcyl"@ {
        assert("gcyl"@.len() != "floor"@.len());
        assert("gcyl"@.len() != "viridian_house"@.len());
        assert("gcyl"@.len() != "viridian_floor"@.len());
        assert("gcyl"@[0] != "tree"@[0]);
        assert("gcyl"@.len() != "platform"@.len());
        assert("gcyl"@.len() != "table"@.len());
        assert("gcyl"@.len() != "barrier"@.len());
    }
    if s == "light"@ {
        assert("light"@[0] != "floor"@[0]);
        assert("light"@.len() != "viridian_house"@.len());
        assert("light"@.len() != "viridian_floor"@.len());
        assert("light"@.len() != "tree"@.len());
        assert("light"@.len() != "platform"@.len());
        assert("light"@[0] != "table"@[0]);
        assert("light"@.len() != "barrier"@.len());
        assert("light"@.len() != "gcyl"@.len());
    }
    if s == "player"@ {
        assert("player"@.len() != "floor"@.len());
        assert("player"@.len() != "viridian_house"@.len());
        assert("player"@.len() != "viridian_floor"@.len());
        assert("player"@.len() != "tree"@.len());
        assert("player"@.len() != "platform"@.len());
        assert("player"@.len() != "table"@.len());
        assert("player"@.len() != "barrier"@.len());
        assert("player"@.len() != "gcyl"@.len());
        assert("player"@.len() != "light"@.len());
    }
    if s == "pig"@ {
        assert("pig"@.len() != "floor"@.len());
        assert("pig"@.len() != "viridian_house"@.len());
        assert("pig"@.len() != "viridian_floor"@.len());
        assert("pig"@.len() != "tree"@.len());
        assert("pig"@.len() != "platform"@.len());
        assert("pig"@.len() != "table"@.len());
        assert("pig"@.len() != "barrier"@.len());
        assert("pig"@.len() != "gcyl"@.len());
        assert("pig"@.len() != "light"@.len());
        assert("pig"@.len() != "player"@.len());
    }
    if s == "menu_m"@ {
        assert("menu_m"@.len() != "floor"@.len());
        assert("menu_m"@.len() != "viridian_house"@.len());
        assert("menu_m"@.len() != "viridian_floor"@.len());
        assert("menu_m"@.len() != "tree"@.len());
        assert("menu_m"@.len() != "platform"@.len());
        assert("menu_m"@.len() != "table"@.len());
        assert("menu_m"@.len() != "barrier"@.len());
        assert("menu_m"@.len() != "gcyl"@.len());
        assert("menu_m"@.len() != "light"@.len());
        assert("menu_m"@[0] != "player"@[0]);
        assert("menu_m"@.len() != "pig"@.len());
    }
    if s == "menu_e"@ {
        assert("menu_e"@.len() != "floor"@.len());
        assert("menu_e"@.len() != "viridian_house"@.len());
        assert("menu_e"@.len() != "viridian_floor"@.len());
        assert("menu_e"@.len() != "tree"@.len());
        assert("menu_e"@.len() != "platform"@.len());
        assert("menu_e"@.len() != "table"@.len());
        assert("menu_e"@.len() != "barrier"@.len());
        assert("menu_e"@.len() != "gcyl"@.len());
        assert("menu_e"@.len() != "light"@.len());
        assert("menu_e"@[0] != "player"@[0]);
        assert("menu_e"@.len() != "pig"@.len());
        assert("menu_e"@[5] != "menu_m"@[5]);
    }
    if s == "menu_n"@ {
        assert("menu_n"@.len() != "floor"@.len());
        assert("menu_n"@.len() != "viridian_house"@.len());
        assert("menu_n"@.len() != "viridian_floor"@.len());
        assert("menu_n"@.len() != "tree"@.len());
        assert("menu_n"@.len() != "platform"@.len());
        assert("menu_n"@.len() != "table"@.len());
        assert("menu_n"@.len() != "barrier"@.len());
        assert("menu_n"@.len() != "gcyl"@.len());
        assert("menu_n"@.len() != "light"@.len());
        assert("menu_n"@[0] != "player"@[0]);
        assert("menu_n"@.len() != "pig"@.len());
        assert("menu_n"@[5] != "menu_m"@[5]);
        assert("menu_n"@[5] != "menu_e"@[5]);
    }
    if s == "menu_u"@ {
        assert("menu_u"@.len() != "floor"@.len());
        assert("menu_u"@.len() != "viridian_house"@.len());
        assert("menu_u"@.len() != "viridian_floor"@.len());
        assert("menu_u"@.len() != "tree"@.len());
        assert("menu_u"@.len() != "platform"@.len());
        assert("menu_u"@.len() != "table"@.len());
        assert("menu_u"@.len() != "barrier"@.len());
        assert("menu_u"@.len() != "gcyl"@.len());
        assert("menu_u"@.len() != "light"@.len());
        assert("menu_u"@[0] != "player"@[0]);
        assert("menu_u"@.len() != "pig"@.len());
        assert("menu_u"@[5] != "menu_m"@[5]);
        assert("menu_u"@[5] != "menu_e"@[5]);
        assert("menu_u"@[5] != "menu_n"@[5]);
    }
}

/// The model a name looks up is the last one of that name: the name is at
/// the position found and at no later position; where none is found, no
/// model has the name.
pub proof fn lemma_last_position_is_last(names: Seq<Seq<char>>, s: Seq<char>)
    ensures
        last_position_of(names, s) matches Some(i) ==> 0 <= i < names.len() && names[i] == s
            && forall|j: int| i < j < names.len() ==> names[j] != s,
        last_position_of(names, s) is None ==> !names.contains(s),
    decreases names.len(),
{
    if names.len() > 0 {
        lemma_last_position_is_last(names.drop_last(), s);
        if names.last() != s {
            if last_position_of(names, s) is None {
                assert forall|j: int| 0 <= j < names.len() implies names[j] != s by {
                    if j < names.len() - 1 {
                        assert(names.drop_last()[j] == names[j]);
                    }
                }
            }
            if let Some(i) = last_position_of(names, s) {
                assert(names.drop_last()[i] == names[i]);
                assert forall|j: int| i < j < names.len() implies names[j] != s by {
                    if j < names.len() - 1 {
                        assert(names.drop_last()[j] == names[j]);
                    }
                }
            }
        }
    }
}

} // verus!
