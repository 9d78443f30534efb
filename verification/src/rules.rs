//! The rules: which change of the watched values, with which toggle, makes which kind of
//! event. Most rules are rows of two tables; a few ask for more than a row can say and are
//! spelled out.
use crate::game;
use crate::keys;
use crate::keys::KEY_COUNT;
use crate::latch::Latch;
use crate::memory::MemoryWatcher;
use crate::rooms;
use crate::settings::{active, Settings};
use crate::state::SNESState;
use crate::watch;
use crate::watch::WATCH_COUNT;
use vstd::prelude::*;

verus! {

/// The kinds of event that make a split.
#[derive(Debug, Copy, Clone, PartialEq, Eq, Structural)]
pub enum Category {
    /// Missiles, super missiles or power bombs were picked up.
    Pickup,
    /// A suit, a boot or another piece of equipment was collected.
    Unlock,
    /// A beam was collected.
    Beam,
    /// An energy tank or a reserve tank was collected.
    EnergyUpgrade,
    /// A door or an elevator was taken from one room to another.
    RoomTransition,
    /// A miniboss was defeated.
    MinibossDefeat,
    /// A boss was defeated.
    BossDefeat,
    /// The run ended: the ship was reached, or the game's clock stopped.
    RunFinish,
    /// A run of another kind ended, on the tick after its last pickup.
    NonStandardFinish,
}

/// The shapes that the change of one watched value can be asked to have. Each takes one or two
/// numbers from its row.
#[derive(Debug, Copy, Clone, PartialEq, Eq, Structural)]
pub enum Shape {
    /// The value rose by exactly the first number.
    Delta,
    /// None of the bits of the first number was set, and now one is.
    BitTransition,
    /// The value went from the first number to the second.
    Transition,
}

/// Which kinds of event a cycle brought.
#[derive(Debug, Copy, Clone, PartialEq, Eq, Structural)]
pub struct Fired {
    pub pickup: bool,
    pub unlock: bool,
    pub beam: bool,
    pub energy_upgrade: bool,
    pub room_transition: bool,
    pub miniboss_defeat: bool,
    pub boss_defeat: bool,
    pub run_finish: bool,
    pub non_standard_finish: bool,
}

/// The number of rules that hold in any room.
pub const ANYWHERE_COUNT: usize = 56;

/// The number of rules that hold in one room only.
pub const IN_ROOM_COUNT: usize = 114;

/// The rules that hold in any room: kind of event, toggle, watched value, shape and its two
/// numbers. A toggle with several rows fires on any of them.
pub const ANYWHERE: [(Category, usize, usize, Shape, u32, u32); 56] = [
    (Category::Pickup, keys::FIRST_MISSILE, watch::MAX_MISSILES, Shape::Transition, 0, 5),
    (Category::Pickup, keys::ALL_MISSILES, watch::MAX_MISSILES, Shape::Delta, 5, 0),
    (Category::Pickup, keys::FIRST_SUPER, watch::MAX_SUPERS, Shape::Transition, 0, 5),
    (Category::Pickup, keys::ALL_SUPERS, watch::MAX_SUPERS, Shape::Delta, 5, 0),
    (Category::Pickup, keys::FIRST_POWER_BOMB, watch::MAX_POWER_BOMBS, Shape::Transition, 0, 5),
    (Category::Pickup, keys::ALL_POWER_BOMBS, watch::MAX_POWER_BOMBS, Shape::Delta, 5, 0),
    (Category::EnergyUpgrade, keys::FIRST_ETANK, watch::MAX_ENERGY, Shape::Transition, 99, 199),
    (Category::EnergyUpgrade, keys::ALL_ETANKS, watch::MAX_ENERGY, Shape::Delta, 100, 0),
    (Category::EnergyUpgrade, keys::RESERVE_TANKS, watch::MAX_RESERVE, Shape::Delta, 100, 0),
    (Category::RoomTransition, keys::MINI_BOSS_ROOMS, watch::ROOM_ID, Shape::Transition, rooms::FLAT_ROOM, rooms::CERES_RIDLEY),
    (Category::RoomTransition, keys::MINI_BOSS_ROOMS, watch::ROOM_ID, Shape::Transition, rooms::SPORE_SPAWN_KEYHUNTER, rooms::SPORE_SPAWN),
    (Category::RoomTransition, keys::MINI_BOSS_ROOMS, watch::ROOM_ID, Shape::Transition, rooms::CROCOMIRE_SPEEDWAY, rooms::CROCOMIRE),
    (Category::RoomTransition, keys::MINI_BOSS_ROOMS, watch::ROOM_ID, Shape::Transition, rooms::BOTWOON_HALLWAY, rooms::BOTWOON),
    (Category::RoomTransition, keys::MINI_BOSS_ROOMS, watch::ROOM_ID, Shape::Transition, rooms::ACID_STATUE, rooms::GOLDEN_TORIZO),
    (Category::RoomTransition, keys::MINI_BOSS_ROOMS, watch::ROOM_ID, Shape::Transition, rooms::SCREW_ATTACK, rooms::GOLDEN_TORIZO),
    (Category::RoomTransition, keys::BOSS_ROOMS, watch::ROOM_ID, Shape::Transition, rooms::KRAID_EYE_DOOR, rooms::KRAID),
    (Category::RoomTransition, keys::BOSS_ROOMS, watch::ROOM_ID, Shape::Transition, rooms::BASEMENT, rooms::PHANTOON),
    (Category::RoomTransition, keys::BOSS_ROOMS, watch::ROOM_ID, Shape::Transition, rooms::PRECIOUS, rooms::DRAYGON),
    (Category::RoomTransition, keys::BOSS_ROOMS, watch::ROOM_ID, Shape::Transition, rooms::LOWER_NORFAIR_FARMING, rooms::RIDLEY),
    (Category::RoomTransition, keys::BOSS_ROOMS, watch::ROOM_ID, Shape::Transition, rooms::RINKA_SHAFT, rooms::MOTHER_BRAIN),
    (Category::RoomTransition, keys::ELEVATOR_TRANSITIONS, watch::ROOM_ID, Shape::Transition, rooms::ELEVATOR_TO_MORPH_BALL, rooms::MORPH_BALL),
    (Category::RoomTransition, keys::ELEVATOR_TRANSITIONS, watch::ROOM_ID, Shape::Transition, rooms::MORPH_BALL, rooms::ELEVATOR_TO_MORPH_BALL),
    (Category::RoomTransition, keys::ELEVATOR_TRANSITIONS, watch::ROOM_ID, Shape::Transition, rooms::ELEVATOR_TO_GREEN_BRINSTAR, rooms::GREEN_BRINSTAR_MAIN_SHAFT),
    (Category::RoomTransition, keys::ELEVATOR_TRANSITIONS, watch::ROOM_ID, Shape::Transition, rooms::GREEN_BRINSTAR_MAIN_SHAFT, rooms::ELEVATOR_TO_GREEN_BRINSTAR),
    (Category::RoomTransition, keys::ELEVATOR_TRANSITIONS, watch::ROOM_ID, Shape::Transition, rooms::WAREHOUSE_ENTRANCE, rooms::BUSINESS_CENTER),
    (Category::RoomTransition, keys::ELEVATOR_TRANSITIONS, watch::ROOM_ID, Shape::Transition, rooms::BUSINESS_CENTER, rooms::WAREHOUSE_ENTRANCE),
    (Category::RoomTransition, keys::ELEVATOR_TRANSITIONS, watch::ROOM_ID, Shape::Transition, rooms::ELEVATOR_TO_CATERPILLAR, rooms::CATERPILLAR),
    (Category::RoomTransition, keys::ELEVATOR_TRANSITIONS, watch::ROOM_ID, Shape::Transition, rooms::CATERPILLAR, rooms::ELEVATOR_TO_CATERPILLAR),
    (Category::RoomTransition, keys::ELEVATOR_TRANSITIONS, watch::ROOM_ID, Shape::Transition, rooms::ELEVATOR_TO_MARIDIA, rooms::MARIDIA_ELEVATOR),
    (Category::RoomTransition, keys::ELEVATOR_TRANSITIONS, watch::ROOM_ID, Shape::Transition, rooms::MARIDIA_ELEVATOR, rooms::ELEVATOR_TO_MARIDIA),
    (Category::RoomTransition, keys::WRECKED_SHIP_ENTRANCE, watch::ROOM_ID, Shape::Transition, rooms::WEST_OCEAN, rooms::WRECKED_SHIP_ENTRANCE),
    (Category::RoomTransition, keys::RED_TOWER_MIDDLE_ENTRANCE, watch::ROOM_ID, Shape::Transition, rooms::NOOB_BRIDGE, rooms::RED_TOWER),
    (Category::RoomTransition, keys::RED_TOWER_BOTTOM_ENTRANCE, watch::ROOM_ID, Shape::Transition, rooms::BAT, rooms::RED_TOWER),
    (Category::RoomTransition, keys::KRAIDS_LAIR, watch::ROOM_ID, Shape::Transition, rooms::WAREHOUSE_ENTRANCE, rooms::WAREHOUSE_ZEELA),
    (Category::RoomTransition, keys::RISING_TIDE_ENTRANCE, watch::ROOM_ID, Shape::Transition, rooms::CATHEDRAL, rooms::RISING_TIDE),
    (Category::RoomTransition, keys::ATTIC_EXIT, watch::ROOM_ID, Shape::Transition, rooms::ATTIC, rooms::WEST_OCEAN),
    (Category::RoomTransition, keys::CAC_EXIT, watch::ROOM_ID, Shape::Transition, rooms::WEST_CACTUS_ALLEY, rooms::BUTTERFLY_ROOM),
    (Category::RoomTransition, keys::TOILET, watch::ROOM_ID, Shape::Transition, rooms::PLASMA_SPARK, rooms::TOILET_BOWL),
    (Category::RoomTransition, keys::TOILET, watch::ROOM_ID, Shape::Transition, rooms::OASIS, rooms::TOILET_BOWL),
    (Category::RoomTransition, keys::KRONIC_BOOST, watch::ROOM_ID, Shape::Transition, rooms::MAGDOLLITE_TUNNEL, rooms::KRONIC_BOOST),
    (Category::RoomTransition, keys::KRONIC_BOOST, watch::ROOM_ID, Shape::Transition, rooms::SPIKY_ACID_SNAKES, rooms::KRONIC_BOOST),
    (Category::RoomTransition, keys::KRONIC_BOOST, watch::ROOM_ID, Shape::Transition, rooms::VOLCANO, rooms::KRONIC_BOOST),
    (Category::RoomTransition, keys::LOWER_NORFAIR_ENTRANCE, watch::ROOM_ID, Shape::Transition, rooms::LOWER_NORFAIR_ELEVATOR, rooms::MAIN_HALL),
    (Category::RoomTransition, keys::WRITG, watch::ROOM_ID, Shape::Transition, rooms::PILLARS, rooms::WRITG),
    (Category::RoomTransition, keys::RED_KI_SHAFT, watch::ROOM_ID, Shape::Transition, rooms::AMPHITHEATRE, rooms::RED_KI_SHAFT),
    (Category::RoomTransition, keys::RED_KI_SHAFT, watch::ROOM_ID, Shape::Transition, rooms::WASTELAND, rooms::RED_KI_SHAFT),
    (Category::RoomTransition, keys::METAL_PIRATES, watch::ROOM_ID, Shape::Transition, rooms::WASTELAND, rooms::METAL_PIRATES),
    (Category::RoomTransition, keys::LOWER_NORFAIR_SPRING_MAZE, watch::ROOM_ID, Shape::Transition, rooms::LOWER_NORFAIR_FIREFLEA, rooms::LOWER_NORFAIR_SPRING_MAZE),
    (Category::RoomTransition, keys::LOWER_NORFAIR_EXIT, watch::ROOM_ID, Shape::Transition, rooms::THREE_MUSKETEERS, rooms::SINGLE_CHAMBER),
    (Category::RoomTransition, keys::TOURIAN_ENTRANCE, watch::ROOM_ID, Shape::Transition, rooms::STATUES, rooms::TOURIAN_ELEVATOR),
    (Category::RoomTransition, keys::METROIDS, watch::ROOM_ID, Shape::Transition, rooms::METROID_ONE, rooms::METROID_TWO),
    (Category::RoomTransition, keys::METROIDS, watch::ROOM_ID, Shape::Transition, rooms::METROID_TWO, rooms::METROID_THREE),
    (Category::RoomTransition, keys::METROIDS, watch::ROOM_ID, Shape::Transition, rooms::METROID_THREE, rooms::METROID_FOUR),
    (Category::RoomTransition, keys::METROIDS, watch::ROOM_ID, Shape::Transition, rooms::METROID_FOUR, rooms::TOURIAN_HOPPER),
    (Category::RoomTransition, keys::BABY_METROID_ROOM, watch::ROOM_ID, Shape::Transition, rooms::DUST_TORIZO, rooms::BIG_BOY),
    (Category::RoomTransition, keys::ESCAPE_CLIMB, watch::ROOM_ID, Shape::Transition, rooms::TOURIAN_ESCAPE4, rooms::CLIMB),
];

/// The rules that hold only while the game is in one room: kind of event, toggle, room,
/// watched value, shape and its two numbers.
pub const IN_ROOM: [(Category, usize, u32, usize, Shape, u32, u32); 114] = [
    (Category::Pickup, keys::OCEAN_BOTTOM_MISSILES, rooms::WEST_OCEAN, watch::CRATERIA_ITEMS, Shape::Delta, 2, 0),
    (Category::Pickup, keys::OCEAN_TOP_MISSILES, rooms::WEST_OCEAN, watch::CRATERIA_ITEMS, Shape::Delta, 4, 0),
    (Category::Pickup, keys::OCEAN_MIDDLE_MISSILES, rooms::WEST_OCEAN, watch::CRATERIA_ITEMS, Shape::Delta, 8, 0),
    (Category::Pickup, keys::MOAT_MISSILES, rooms::CRATERIA_MOAT, watch::CRATERIA_ITEMS, Shape::Delta, 16, 0),
    (Category::Pickup, keys::OLD_TOURIAN_MISSILES, rooms::PIT_ROOM, watch::CRATERIA_ITEMS, Shape::Delta, 64, 0),
    (Category::Pickup, keys::GAUNTLET_RIGHT_MISSILES, rooms::GREEN_PIRATE_SHAFT, watch::BRINTERIA_ITEMS, Shape::Delta, 2, 0),
    (Category::Pickup, keys::GAUNTLET_LEFT_MISSILES, rooms::GREEN_PIRATE_SHAFT, watch::BRINTERIA_ITEMS, Shape::Delta, 4, 0),
    (Category::Pickup, keys::DENTAL_PLAN, rooms::THE_FINAL_MISSILE, watch::BRINTERIA_ITEMS, Shape::Delta, 16, 0),
    (Category::Pickup, keys::EARLY_SUPER_BRIDGE_MISSILES, rooms::EARLY_SUPERS, watch::BRINTERIA_ITEMS, Shape::Delta, 128, 0),
    (Category::Pickup, keys::GREEN_BRINSTAR_RESERVE_MISSILES, rooms::BRINSTAR_RESERVE_ROOM, watch::BRINSTAR_ITEMS2, Shape::Delta, 8, 0),
    (Category::Pickup, keys::GREEN_BRINSTAR_EXTRA_RESERVE_MISSILES, rooms::BRINSTAR_RESERVE_ROOM, watch::BRINSTAR_ITEMS2, Shape::Delta, 4, 0),
    (Category::Pickup, keys::BIG_PINK_TOP_MISSILES, rooms::BIG_PINK, watch::BRINSTAR_ITEMS2, Shape::Delta, 32, 0),
    (Category::Pickup, keys::CHARGE_MISSILES, rooms::BIG_PINK, watch::BRINSTAR_ITEMS2, Shape::Delta, 64, 0),
    (Category::Pickup, keys::GREEN_HILLS_MISSILES, rooms::GREEN_HILLS, watch::BRINSTAR_ITEMS3, Shape::Delta, 2, 0),
    (Category::Pickup, keys::BLUE_BRINSTAR_ETANK_MISSILES, rooms::BLUE_BRINSTAR_ETANK_ROOM, watch::BRINSTAR_ITEMS3, Shape::Delta, 16, 0),
    (Category::Pickup, keys::ALPHA_MISSILES, rooms::ALPHA_MISSILE_ROOM, watch::BRINSTAR_ITEMS4, Shape::Delta, 4, 0),
    (Category::Pickup, keys::BILLY_MAYS_MISSILES, rooms::BILLY_MAYS, watch::BRINSTAR_ITEMS4, Shape::Delta, 16, 0),
    (Category::Pickup, keys::BUT_WAIT_THERES_MORE_MISSILES, rooms::BILLY_MAYS, watch::BRINSTAR_ITEMS4, Shape::Delta, 32, 0),
    (Category::Pickup, keys::RED_BRINSTAR_MISSILES, rooms::ALPHA_POWER_BOMBS_ROOM, watch::BRINSTAR_ITEMS5, Shape::Delta, 2, 0),
    (Category::Pickup, keys::WAREHOUSE_MISSILES, rooms::WAREHOUSE_KI_HUNTERS, watch::BRINSTAR_ITEMS5, Shape::Delta, 16, 0),
    (Category::Pickup, keys::CATHEDRAL_MISSILES, rooms::CATHEDRAL, watch::NORFAIR_ITEMS1, Shape::Delta, 2, 0),
    (Category::Pickup, keys::CRUMBLE_SHAFT_MISSILES, rooms::CRUMBLE_SHAFT, watch::NORFAIR_ITEMS1, Shape::Delta, 8, 0),
    (Category::Pickup, keys::CROCOMIRE_ESCAPE_MISSILES, rooms::CROCOMIRE_ESCAPE, watch::NORFAIR_ITEMS1, Shape::Delta, 64, 0),
    (Category::Pickup, keys::HI_JUMP_MISSILES, rooms::HI_JUMP_SHAFT, watch::NORFAIR_ITEMS1, Shape::Delta, 128, 0),
    (Category::Pickup, keys::POST_CROCOMIRE_MISSILES, rooms::COSINE_ROOM, watch::NORFAIR_ITEMS2, Shape::Delta, 4, 0),
    (Category::Pickup, keys::GRAPPLE_MISSILES, rooms::PRE_GRAPPLE, watch::NORFAIR_ITEMS2, Shape::Delta, 8, 0),
    (Category::Pickup, keys::NORFAIR_RESERVE_MISSILES, rooms::NORFAIR_RESERVE_ROOM, watch::NORFAIR_ITEMS2, Shape::Delta, 64, 0),
    (Category::Pickup, keys::GREEN_BUBBLES_MISSILES, rooms::GREEN_BUBBLES_ROOM, watch::NORFAIR_ITEMS2, Shape::Delta, 128, 0),
    (Category::Pickup, keys::BUBBLE_MOUNTAIN_MISSILES, rooms::BUBBLE_MOUNTAIN, watch::NORFAIR_ITEMS3, Shape::Delta, 1, 0),
    (Category::Pickup, keys::SPEED_BOOST_MISSILES, rooms::SPEED_BOOST_HALL, watch::NORFAIR_ITEMS3, Shape::Delta, 2, 0),
    (Category::Pickup, keys::WAVE_MISSILES, rooms::DOUBLE_CHAMBER, watch::NORFAIR_ITEMS3, Shape::Delta, 8, 0),
    (Category::Pickup, keys::GOLD_TORIZO_MISSILES, rooms::GOLDEN_TORIZO, watch::NORFAIR_ITEMS3, Shape::Delta, 64, 0),
    (Category::Pickup, keys::MICKEY_MOUSE_MISSILES, rooms::MICKEY_MOUSE, watch::NORFAIR_ITEMS4, Shape::Delta, 2, 0),
    (Category::Pickup, keys::LOWER_NORFAIR_SPRING_MAZE_MISSILES, rooms::LOWER_NORFAIR_SPRING_MAZE, watch::NORFAIR_ITEMS4, Shape::Delta, 4, 0),
    (Category::Pickup, keys::THREE_MUSKETEERS_MISSILES, rooms::THREE_MUSKETEERS, watch::NORFAIR_ITEMS4, Shape::Delta, 32, 0),
    (Category::Pickup, keys::WRECKED_SHIP_MAIN_SHAFT_MISSILES, rooms::WRECKED_SHIP_MAIN_SHAFT, watch::WRECKED_SHIP_ITEMS, Shape::Delta, 1, 0),
    (Category::Pickup, keys::BOWLING_MISSILES, rooms::BOWLING, watch::WRECKED_SHIP_ITEMS, Shape::Delta, 4, 0),
    (Category::Pickup, keys::ATTIC_MISSILES, rooms::ATTIC_WORKER_ROBOT_ROOM, watch::WRECKED_SHIP_ITEMS, Shape::Delta, 8, 0),
    (Category::Pickup, keys::MAIN_STREET_MISSILES, rooms::MAIN_STREET, watch::MARIDIA_ITEMS1, Shape::Delta, 1, 0),
    (Category::Pickup, keys::MAMA_TURTLE_MISSILES, rooms::MAMA_TURTLE, watch::MARIDIA_ITEMS1, Shape::Delta, 8, 0),
    (Category::Pickup, keys::WATERING_HOLE_MISSILES, rooms::WATERING_HOLE, watch::MARIDIA_ITEMS1, Shape::Delta, 32, 0),
    (Category::Pickup, keys::BEACH_MISSILES, rooms::BEACH, watch::MARIDIA_ITEMS1, Shape::Delta, 64, 0),
    (Category::Pickup, keys::LEFT_SAND_PIT_MISSILES, rooms::LEFT_SAND_PIT, watch::MARIDIA_ITEMS2, Shape::Delta, 1, 0),
    (Category::Pickup, keys::RIGHT_SAND_PIT_MISSILES, rooms::RIGHT_SAND_PIT, watch::MARIDIA_ITEMS2, Shape::Delta, 4, 0),
    (Category::Pickup, keys::AQUEDUCT_MISSILES, rooms::AQUEDUCT, watch::MARIDIA_ITEMS2, Shape::Delta, 16, 0),
    (Category::Pickup, keys::PRE_DRAYGON_MISSILES, rooms::PRECIOUS, watch::MARIDIA_ITEMS2, Shape::Delta, 128, 0),
    (Category::Pickup, keys::CLIMB_SUPERS, rooms::CRATERIA_SUPERS_ROOM, watch::BRINTERIA_ITEMS, Shape::Delta, 8, 0),
    (Category::Pickup, keys::SPORE_SPAWN_SUPERS, rooms::SPORE_SPAWN_SUPER, watch::BRINTERIA_ITEMS, Shape::Delta, 64, 0),
    (Category::Pickup, keys::EARLY_SUPERS, rooms::EARLY_SUPERS, watch::BRINSTAR_ITEMS2, Shape::Delta, 1, 0),
    (Category::Pickup, keys::ETACOON_SUPERS, rooms::ETACOON_SUPER_ROOM, watch::BRINSTAR_ITEMS3, Shape::Delta, 128, 0),
    (Category::Pickup, keys::GOLD_TORIZO_SUPERS, rooms::GOLDEN_TORIZO, watch::NORFAIR_ITEMS3, Shape::Delta, 128, 0),
    (Category::Pickup, keys::WRECKED_SHIP_LEFT_SUPERS, rooms::WRECKED_SHIP_LEFT_SUPER_ROOM, watch::WRECKED_SHIP_ITEMS, Shape::Delta, 32, 0),
    (Category::Pickup, keys::WRECKED_SHIP_RIGHT_SUPERS, rooms::WRECKED_SHIP_RIGHT_SUPER_ROOM, watch::WRECKED_SHIP_ITEMS, Shape::Delta, 64, 0),
    (Category::Pickup, keys::CRAB_SUPERS, rooms::MAIN_STREET, watch::MARIDIA_ITEMS1, Shape::Delta, 2, 0),
    (Category::Pickup, keys::WATERING_HOLE_SUPERS, rooms::WATERING_HOLE, watch::MARIDIA_ITEMS1, Shape::Delta, 16, 0),
    (Category::Pickup, keys::AQUEDUCT_SUPERS, rooms::AQUEDUCT, watch::MARIDIA_ITEMS2, Shape::Delta, 32, 0),
    (Category::Pickup, keys::LANDING_SITE_BOMBS, rooms::CRATERIA_POWER_BOMB_ROOM, watch::CRATERIA_ITEMS, Shape::Delta, 1, 0),
    (Category::Pickup, keys::ETACOON_BOMBS, rooms::GREEN_BRINSTAR_MAIN_SHAFT, watch::BRINTERIA_ITEMS, Shape::Delta, 32, 0),
    (Category::Pickup, keys::PINK_BRINSTAR_BOMBS, rooms::PINK_BRINSTAR_POWER_BOMB_ROOM, watch::BRINSTAR_ITEMS3, Shape::Delta, 1, 0),
    (Category::Pickup, keys::BLUE_BRINSTAR_BOMBS, rooms::MORPH_BALL, watch::BRINSTAR_ITEMS3, Shape::Delta, 8, 0),
    (Category::Pickup, keys::ALPHA_BOMBS, rooms::ALPHA_POWER_BOMBS_ROOM, watch::BRINSTAR_ITEMS5, Shape::Delta, 1, 0),
    (Category::Pickup, keys::BETA_BOMBS, rooms::BETA_POWER_BOMB_ROOM, watch::BRINSTAR_ITEMS4, Shape::Delta, 128, 0),
    (Category::Pickup, keys::CROCOMIRE_BOMBS, rooms::POST_CROCOMIRE_POWER_BOMB_ROOM, watch::NORFAIR_ITEMS2, Shape::Delta, 2, 0),
    (Category::Pickup, keys::LOWER_NORFAIR_ESCAPE_BOMBS, rooms::LOWER_NORFAIR_ESCAPE_POWER_BOMB_ROOM, watch::NORFAIR_ITEMS4, Shape::Delta, 8, 0),
    (Category::Pickup, keys::SHAME_BOMBS, rooms::WASTELAND, watch::NORFAIR_ITEMS4, Shape::Delta, 16, 0),
    (Category::Pickup, keys::RIGHT_SAND_PIT_BOMBS, rooms::RIGHT_SAND_PIT, watch::MARIDIA_ITEMS2, Shape::Delta, 8, 0),
    (Category::Unlock, keys::VARIA_SUIT, rooms::VARIA, watch::UNLOCKED_EQUIPS2, Shape::BitTransition, game::UNLOCK_VARIA_SUIT, 0),
    (Category::Unlock, keys::SPRING_BALL, rooms::SPRING_BALL, watch::UNLOCKED_EQUIPS2, Shape::BitTransition, game::UNLOCK_SPRING_BALL, 0),
    (Category::Unlock, keys::MORPH_BALL, rooms::MORPH_BALL, watch::UNLOCKED_EQUIPS2, Shape::BitTransition, game::UNLOCK_MORPH_BALL, 0),
    (Category::Unlock, keys::SCREW_ATTACK, rooms::SCREW_ATTACK, watch::UNLOCKED_EQUIPS2, Shape::BitTransition, game::UNLOCK_SCREW_ATTACK, 0),
    (Category::Unlock, keys::GRAV_SUIT, rooms::GRAVITY, watch::UNLOCKED_EQUIPS2, Shape::BitTransition, game::UNLOCK_GRAV_SUIT, 0),
    (Category::Unlock, keys::HI_JUMP, rooms::HI_JUMP, watch::UNLOCKED_EQUIPS, Shape::BitTransition, game::UNLOCK_HI_JUMP, 0),
    (Category::Unlock, keys::SPACE_JUMP, rooms::SPACE_JUMP, watch::UNLOCKED_EQUIPS, Shape::BitTransition, game::UNLOCK_SPACE_JUMP, 0),
    (Category::Unlock, keys::BOMB, rooms::BOMB_TORIZO, watch::UNLOCKED_EQUIPS, Shape::BitTransition, game::UNLOCK_BOMB, 0),
    (Category::Unlock, keys::SPEED_BOOSTER, rooms::SPEED_BOOSTER, watch::UNLOCKED_EQUIPS, Shape::BitTransition, game::UNLOCK_SPEED_BOOSTER, 0),
    (Category::Unlock, keys::GRAPPLE, rooms::GRAPPLE, watch::UNLOCKED_EQUIPS, Shape::BitTransition, game::UNLOCK_GRAPPLE, 0),
    (Category::Unlock, keys::XRAY, rooms::X_RAY, watch::UNLOCKED_EQUIPS, Shape::BitTransition, game::UNLOCK_XRAY, 0),
    (Category::Beam, keys::WAVE, rooms::WAVE_BEAM, watch::UNLOCKED_BEAMS, Shape::BitTransition, game::UNLOCK_WAVE, 0),
    (Category::Beam, keys::ICE, rooms::ICE_BEAM, watch::UNLOCKED_BEAMS, Shape::BitTransition, game::UNLOCK_ICE, 0),
    (Category::Beam, keys::SPAZER, rooms::SPAZER, watch::UNLOCKED_BEAMS, Shape::BitTransition, game::UNLOCK_SPAZER, 0),
    (Category::Beam, keys::PLASMA, rooms::PLASMA_BEAM, watch::UNLOCKED_BEAMS, Shape::BitTransition, game::UNLOCK_PLASMA, 0),
    (Category::Beam, keys::CHARGE_BEAM, rooms::BIG_PINK, watch::UNLOCKED_CHARGE, Shape::BitTransition, game::UNLOCK_CHARGE_BEAM, 0),
    (Category::EnergyUpgrade, keys::GAUNTLET_ETANK, rooms::GAUNTLET_ETANK_ROOM, watch::CRATERIA_ITEMS, Shape::Delta, 32, 0),
    (Category::EnergyUpgrade, keys::TERMINATOR_ETANK, rooms::TERMINATOR, watch::BRINTERIA_ITEMS, Shape::Delta, 1, 0),
    (Category::EnergyUpgrade, keys::CEILING_ETANK, rooms::BLUE_BRINSTAR_ETANK_ROOM, watch::BRINSTAR_ITEMS3, Shape::Delta, 32, 0),
    (Category::EnergyUpgrade, keys::ETECOONS_ETANK, rooms::ETACOON_ETANK_ROOM, watch::BRINSTAR_ITEMS3, Shape::Delta, 64, 0),
    (Category::EnergyUpgrade, keys::WATERWAY_ETANK, rooms::WATERWAY, watch::BRINSTAR_ITEMS4, Shape::Delta, 2, 0),
    (Category::EnergyUpgrade, keys::WAVE_GATE_ETANK, rooms::HOPPER_ETANK_ROOM, watch::BRINSTAR_ITEMS4, Shape::Delta, 8, 0),
    (Category::EnergyUpgrade, keys::KRAID_ETANK, rooms::WAREHOUSE_ETANK_ROOM, watch::BRINSTAR_ITEMS5, Shape::Delta, 8, 0),
    (Category::EnergyUpgrade, keys::CROCOMIRE_ETANK, rooms::CROCOMIRE, watch::NORFAIR_ITEMS1, Shape::Delta, 16, 0),
    (Category::EnergyUpgrade, keys::HI_JUMP_ETANK, rooms::HI_JUMP_SHAFT, watch::NORFAIR_ITEMS2, Shape::Delta, 1, 0),
    (Category::EnergyUpgrade, keys::RIDLEY_ETANK, rooms::RIDLEY_ETANK_ROOM, watch::NORFAIR_ITEMS4, Shape::Delta, 64, 0),
    (Category::EnergyUpgrade, keys::FIREFLEA_ETANK, rooms::LOWER_NORFAIR_FIREFLEA, watch::NORFAIR_ITEMS5, Shape::Delta, 1, 0),
    (Category::EnergyUpgrade, keys::WRECKED_SHIP_ETANK, rooms::WRECKED_SHIP_ETANK_ROOM, watch::WRECKED_SHIP_ITEMS, Shape::Delta, 16, 0),
    (Category::EnergyUpgrade, keys::TATORI_ETANK, rooms::MAMA_TURTLE, watch::MARIDIA_ITEMS1, Shape::Delta, 4, 0),
    (Category::EnergyUpgrade, keys::BOTWOON_ETANK, rooms::BOTWOON_ETANK_ROOM, watch::MARIDIA_ITEMS3, Shape::Delta, 1, 0),
    (Category::EnergyUpgrade, keys::BRINSTAR_RESERVE, rooms::BRINSTAR_RESERVE_ROOM, watch::BRINSTAR_ITEMS2, Shape::Delta, 2, 0),
    (Category::EnergyUpgrade, keys::NORFAIR_RESERVE, rooms::NORFAIR_RESERVE_ROOM, watch::NORFAIR_ITEMS2, Shape::Delta, 32, 0),
    (Category::EnergyUpgrade, keys::WRECKED_SHIP_RESERVE, rooms::BOWLING, watch::WRECKED_SHIP_ITEMS, Shape::Delta, 2, 0),
    (Category::EnergyUpgrade, keys::MARIDIA_RESERVE, rooms::LEFT_SAND_PIT, watch::MARIDIA_ITEMS2, Shape::Delta, 2, 0),
    (Category::RoomTransition, keys::CERES_ESCAPE, rooms::CERES_ELEVATOR, watch::GAME_STATE, Shape::Transition, game::STATE_NORMAL_GAMEPLAY, game::STATE_START_OF_CERES_CUTSCENE),
    (Category::RoomTransition, keys::TUBE_BROKEN, rooms::GLASS_TUNNEL, watch::EVENT_FLAGS, Shape::BitTransition, game::EVENT_TUBE_BROKEN, 0),
    (Category::MinibossDefeat, keys::CERES_RIDLEY, rooms::CERES_RIDLEY, watch::CERES_BOSSES, Shape::BitTransition, game::BOSS_CERES_RIDLEY, 0),
    (Category::MinibossDefeat, keys::BOMB_TORIZO, rooms::BOMB_TORIZO, watch::CRATERIA_BOSSES, Shape::BitTransition, game::BOSS_BOMB_TORIZO, 0),
    (Category::MinibossDefeat, keys::SPORE_SPAWN, rooms::SPORE_SPAWN, watch::BRINSTAR_BOSSES, Shape::BitTransition, game::BOSS_SPORE_SPAWN, 0),
    (Category::MinibossDefeat, keys::CROCOMIRE, rooms::CROCOMIRE, watch::NORFAIR_BOSSES, Shape::BitTransition, game::BOSS_CROCOMIRE, 0),
    (Category::MinibossDefeat, keys::BOTWOON, rooms::BOTWOON, watch::MARIDIA_BOSSES, Shape::BitTransition, game::BOSS_BOTWOON, 0),
    (Category::MinibossDefeat, keys::GOLDEN_TORIZO, rooms::GOLDEN_TORIZO, watch::NORFAIR_BOSSES, Shape::BitTransition, game::BOSS_GOLDEN_TORIZO, 0),
    (Category::BossDefeat, keys::KRAID, rooms::KRAID, watch::BRINSTAR_BOSSES, Shape::BitTransition, game::BOSS_KRAID, 0),
    (Category::BossDefeat, keys::PHANTOON, rooms::PHANTOON, watch::WRECKED_SHIP_BOSSES, Shape::BitTransition, game::BOSS_PHANTOON, 0),
    (Category::BossDefeat, keys::DRAYGON, rooms::DRAYGON, watch::MARIDIA_BOSSES, Shape::BitTransition, game::BOSS_DRAYGON, 0),
    (Category::BossDefeat, keys::RIDLEY, rooms::RIDLEY, watch::NORFAIR_BOSSES, Shape::BitTransition, game::BOSS_RIDLEY, 0),
    (Category::BossDefeat, keys::MB3, rooms::MOTHER_BRAIN, watch::TOURIAN_BOSSES, Shape::BitTransition, game::BOSS_MOTHER_BRAIN, 0),
    (Category::RunFinish, keys::IGT_FINISH, rooms::LANDING_SITE, watch::GAME_STATE, Shape::Transition, game::STATE_PRE_END_CUTSCENE, game::STATE_END_CUTSCENE),
];

/// Whether the change of `value` has the shape `shape` with the numbers `first` and `second`.
pub open spec fn edge(shape: Shape, first: u32, second: u32, value: MemoryWatcher) -> bool {
    match shape {
        Shape::Delta => value.old + first == value.current,
        Shape::BitTransition => value.old & first == 0 && value.current & first != 0,
        Shape::Transition => value.old == first && value.current == second,
    }
}

/// Whether row `row` of `ANYWHERE` fires: its toggle takes effect and its watched value
/// changed in its shape.
pub open spec fn anywhere_fires(flags: Seq<bool>, values: Seq<MemoryWatcher>, row: int) -> bool {
    &&& active(flags, ANYWHERE[row].1 as int)
    &&& edge(ANYWHERE[row].3, ANYWHERE[row].4, ANYWHERE[row].5, values[ANYWHERE[row].2 as int])
}

/// Whether row `row` of `IN_ROOM` fires: its toggle takes effect, the game is in its room and
/// its watched value changed in its shape.
pub open spec fn in_room_fires(flags: Seq<bool>, values: Seq<MemoryWatcher>, row: int) -> bool {
    &&& active(flags, IN_ROOM[row].1 as int)
    &&& values[watch::ROOM_ID as int].current == IN_ROOM[row].2
    &&& edge(IN_ROOM[row].4, IN_ROOM[row].5, IN_ROOM[row].6, values[IN_ROOM[row].3 as int])
}

/// Some row of kind `category` among the first `upto` of `ANYWHERE` fires.
pub open spec fn anywhere_hits(
    flags: Seq<bool>,
    values: Seq<MemoryWatcher>,
    category: Category,
    upto: int,
) -> bool {
    exists|row: int|
        0 <= row < upto && #[trigger] anywhere_fires(flags, values, row) && ANYWHERE[row].0
            == category
}

/// Some row of kind `category` among the first `upto` of `IN_ROOM` fires.
pub open spec fn in_room_hits(
    flags: Seq<bool>,
    values: Seq<MemoryWatcher>,
    category: Category,
    upto: int,
) -> bool {
    exists|row: int|
        0 <= row < upto && #[trigger] in_room_fires(flags, values, row) && IN_ROOM[row].0
            == category
}

/// The hall of the statues is entered with the four main bosses defeated.
pub open spec fn golden_four(flags: Seq<bool>, values: Seq<MemoryWatcher>) -> bool {
    &&& active(flags, keys::GOLDEN_FOUR as int)
    &&& values[watch::ROOM_ID as int].old == rooms::STATUES_HALLWAY
    &&& values[watch::ROOM_ID as int].current == rooms::STATUES
    &&& values[watch::BRINSTAR_BOSSES as int].current & game::BOSS_KRAID != 0
    &&& values[watch::WRECKED_SHIP_BOSSES as int].current & game::BOSS_PHANTOON != 0
    &&& values[watch::MARIDIA_BOSSES as int].current & game::BOSS_DRAYGON != 0
    &&& values[watch::NORFAIR_BOSSES as int].current & game::BOSS_RIDLEY != 0
}

/// In Mother Brain's room, while the game plays, her health goes from nothing to `health`:
/// the phase before is over.
pub open spec fn mother_brain_phase(values: Seq<MemoryWatcher>, health: u32) -> bool {
    &&& values[watch::ROOM_ID as int].current == rooms::MOTHER_BRAIN
    &&& values[watch::GAME_STATE as int].current == game::STATE_NORMAL_GAMEPLAY
    &&& values[watch::MOTHER_BRAIN_HP as int].old == 0
    &&& values[watch::MOTHER_BRAIN_HP as int].current == health
}

/// The end of the first or of the second phase of Mother Brain, with its toggle.
pub open spec fn mother_brain(flags: Seq<bool>, values: Seq<MemoryWatcher>) -> bool {
    ||| active(flags, keys::MB1 as int) && mother_brain_phase(values, game::MOTHER_BRAIN_PHASE2)
    ||| active(flags, keys::MB2 as int) && mother_brain_phase(values, game::MOTHER_BRAIN_PHASE3)
}

/// The ship takes off while the planet burns.
pub open spec fn escape(flags: Seq<bool>, values: Seq<MemoryWatcher>) -> bool {
    &&& active(flags, keys::RTA_FINISH as int)
    &&& values[watch::EVENT_FLAGS as int].current & game::EVENT_ZEBES_ABLAZE != 0
    &&& values[watch::SHIP_AI as int].old != game::SHIP_AI_TAKEOFF
    &&& values[watch::SHIP_AI as int].current == game::SHIP_AI_TAKEOFF
}

/// The game's clock moved on since the cycle before.
pub open spec fn clock_ticked(values: Seq<MemoryWatcher>) -> bool {
    values[watch::IGT_FRAMES as int].old != values[watch::IGT_FRAMES as int].current
}

/// The super missiles behind Spore Spawn are picked up, with Spore Spawn defeated.
pub open spec fn spore_spawn_super_taken(values: Seq<MemoryWatcher>) -> bool {
    &&& values[watch::ROOM_ID as int].current == rooms::SPORE_SPAWN_SUPER
    &&& values[watch::MAX_SUPERS as int].old + 5 == values[watch::MAX_SUPERS as int].current
    &&& values[watch::BRINSTAR_BOSSES as int].current & game::BOSS_SPORE_SPAWN != 0
}

/// The missiles that make a hundred are picked up.
pub open spec fn hundredth_missile_taken(values: Seq<MemoryWatcher>) -> bool {
    &&& values[watch::MAX_MISSILES as int].old == 95
    &&& values[watch::MAX_MISSILES as int].current == 100
}

/// The latch of the hundredth missile after this cycle.
pub open spec fn hundredth_missile_after(
    flags: Seq<bool>,
    values: Seq<MemoryWatcher>,
    latch: Latch,
) -> Latch {
    latch.next(
        active(flags, keys::HUNDRED_MISSILE_RTA_FINISH as int),
        hundredth_missile_taken(values),
        clock_ticked(values),
    )
}

/// The latch of the super missiles behind Spore Spawn after this cycle.
pub open spec fn spore_spawn_super_after(
    flags: Seq<bool>,
    values: Seq<MemoryWatcher>,
    latch: Latch,
) -> Latch {
    latch.next(
        active(flags, keys::SPORE_SPAWN_RTA_FINISH as int),
        spore_spawn_super_taken(values),
        clock_ticked(values),
    )
}

/// One of the two latched runs ends in this cycle.
pub open spec fn latched_finish(
    flags: Seq<bool>,
    values: Seq<MemoryWatcher>,
    hundredth_missile: Latch,
    spore_spawn_super: Latch,
) -> bool {
    ||| spore_spawn_super.fires(
        active(flags, keys::SPORE_SPAWN_RTA_FINISH as int),
        clock_ticked(values),
    )
    ||| hundredth_missile.fires(
        active(flags, keys::HUNDRED_MISSILE_RTA_FINISH as int),
        clock_ticked(values),
    )
}

/// Whether the cycle brings an event of kind `category`: one of its rules fires, whichever.
pub open spec fn category_fires(
    flags: Seq<bool>,
    values: Seq<MemoryWatcher>,
    hundredth_missile: Latch,
    spore_spawn_super: Latch,
    category: Category,
) -> bool {
    ||| anywhere_hits(flags, values, category, ANYWHERE_COUNT as int)
    ||| in_room_hits(flags, values, category, IN_ROOM_COUNT as int)
    ||| category == Category::RoomTransition && golden_four(flags, values)
    ||| category == Category::BossDefeat && mother_brain(flags, values)
    ||| category == Category::RunFinish && escape(flags, values)
    ||| category == Category::NonStandardFinish && latched_finish(
        flags,
        values,
        hundredth_missile,
        spore_spawn_super,
    )
}

impl Fired {
    /// Whether an event of kind `category` is among them.
    pub open spec fn has(self, category: Category) -> bool {
        match category {
            Category::Pickup => self.pickup,
            Category::Unlock => self.unlock,
            Category::Beam => self.beam,
            Category::EnergyUpgrade => self.energy_upgrade,
            Category::RoomTransition => self.room_transition,
            Category::MinibossDefeat => self.miniboss_defeat,
            Category::BossDefeat => self.boss_defeat,
            Category::RunFinish => self.run_finish,
            Category::NonStandardFinish => self.non_standard_finish,
        }
    }

    /// Whether there is an event of any kind: the cycle makes a split.
    pub open spec fn splits(self) -> bool {
        exists|category: Category| self.has(category)
    }

    /// No event.
    pub fn none() -> (fired: Fired)
        ensures
            forall|category: Category| !fired.has(category),
    {
        Fired {
            pickup: false,
            unlock: false,
            beam: false,
            energy_upgrade: false,
            room_transition: false,
            miniboss_defeat: false,
            boss_defeat: false,
            run_finish: false,
            non_standard_finish: false,
        }
    }

    /// These events and one of kind `category`.
    pub fn with(self, category: Category) -> (fired: Fired)
        ensures
            forall|other: Category| fired.has(other) == (self.has(other) || other == category),
    {
        let mut fired = self;
        match category {
            Category::Pickup => {
                fired.pickup = true;
            },
            Category::Unlock => {
                fired.unlock = true;
            },
            Category::Beam => {
                fired.beam = true;
            },
            Category::EnergyUpgrade => {
                fired.energy_upgrade = true;
            },
            Category::RoomTransition => {
                fired.room_transition = true;
            },
            Category::MinibossDefeat => {
                fired.miniboss_defeat = true;
            },
            Category::BossDefeat => {
                fired.boss_defeat = true;
            },
            Category::RunFinish => {
                fired.run_finish = true;
            },
            Category::NonStandardFinish => {
                fired.non_standard_finish = true;
            },
        }
        fired
    }

    /// Whether there is an event of any kind.
    pub fn any(&self) -> (any: bool)
        ensures
            any == self.splits(),
    {
        let any = self.pickup || self.unlock || self.beam || self.energy_upgrade
            || self.room_transition || self.miniboss_defeat || self.boss_defeat || self.run_finish
            || self.non_standard_finish;
        proof {
            if any {
                let category = if self.pickup {
                    Category::Pickup
                } else if self.unlock {
                    Category::Unlock
                } else if self.beam {
                    Category::Beam
                } else if self.energy_upgrade {
                    Category::EnergyUpgrade
                } else if self.room_transition {
                    Category::RoomTransition
                } else if self.miniboss_defeat {
                    Category::MinibossDefeat
                } else if self.boss_defeat {
                    Category::BossDefeat
                } else if self.run_finish {
                    Category::RunFinish
                } else {
                    Category::NonStandardFinish
                };
                assert(self.has(category));
            }
        }
        any
    }
}

/// What a cycle brings, given the toggles, the watched values and the two latches as the
/// cycle found them: for each kind of event, whether one of its rules fires.
pub open spec fn events(
    flags: Seq<bool>,
    values: Seq<MemoryWatcher>,
    hundredth_missile: Latch,
    spore_spawn_super: Latch,
) -> Fired {
    Fired {
        pickup: category_fires(
            flags,
            values,
            hundredth_missile,
            spore_spawn_super,
            Category::Pickup,
        ),
        unlock: category_fires(
            flags,
            values,
            hundredth_missile,
            spore_spawn_super,
            Category::Unlock,
        ),
        beam: category_fires(flags, values, hundredth_missile, spore_spawn_super, Category::Beam),
        energy_upgrade: category_fires(
            flags,
            values,
            hundredth_missile,
            spore_spawn_super,
            Category::EnergyUpgrade,
        ),
        room_transition: category_fires(
            flags,
            values,
            hundredth_missile,
            spore_spawn_super,
            Category::RoomTransition,
        ),
        miniboss_defeat: category_fires(
            flags,
            values,
            hundredth_missile,
            spore_spawn_super,
            Category::MinibossDefeat,
        ),
        boss_defeat: category_fires(
            flags,
            values,
            hundredth_missile,
            spore_spawn_super,
            Category::BossDefeat,
        ),
        run_finish: category_fires(
            flags,
            values,
            hundredth_missile,
            spore_spawn_super,
            Category::RunFinish,
        ),
        non_standard_finish: category_fires(
            flags,
            values,
            hundredth_missile,
            spore_spawn_super,
            Category::NonStandardFinish,
        ),
    }
}

/// Every row names a toggle of the catalogue and a watched value that exists: no rule can
/// ask for what is not there.
pub proof fn lemma_rows_name_what_exists()
    ensures
        forall|row: int|
            0 <= row < ANYWHERE_COUNT ==> (#[trigger] ANYWHERE[row]).1 < KEY_COUNT
                && ANYWHERE[row].2 < WATCH_COUNT,
        forall|row: int|
            0 <= row < IN_ROOM_COUNT ==> (#[trigger] IN_ROOM[row]).1 < KEY_COUNT
                && IN_ROOM[row].3 < WATCH_COUNT,
{
}

/// Whether the change of `value` has the shape `shape` with the numbers `first` and `second`.
pub fn edge_holds(shape: Shape, first: u32, second: u32, value: MemoryWatcher) -> (holds: bool)
    ensures
        holds == edge(shape, first, second, value),
{
    match shape {
        Shape::Delta => value.old as u64 + first as u64 == value.current as u64,
        Shape::BitTransition => value.old & first == 0 && value.current & first != 0,
        Shape::Transition => value.old == first && value.current == second,
    }
}

/// Adds to `fired` what the rows of `ANYWHERE` bring.
fn sweep_anywhere(settings: &Settings, snes: &SNESState, fired: Fired) -> (swept: Fired)
    ensures
        forall|category: Category|
            #[trigger] swept.has(category) == (fired.has(category) || anywhere_hits(
                settings@,
                snes.watchers(),
                category,
                ANYWHERE_COUNT as int,
            )),
{
    proof {
        lemma_rows_name_what_exists();
    }
    let mut swept = fired;
    let mut row: usize = 0;
    while row < ANYWHERE_COUNT
        invariant
            row <= ANYWHERE_COUNT,
            forall|r: int|
                0 <= r < ANYWHERE_COUNT ==> (#[trigger] ANYWHERE[r]).1 < KEY_COUNT && ANYWHERE[r].2
                    < WATCH_COUNT,
            forall|category: Category|
                #[trigger] swept.has(category) == (fired.has(category) || anywhere_hits(
                    settings@,
                    snes.watchers(),
                    category,
                    row as int,
                )),
        decreases ANYWHERE_COUNT - row,
    {
        let (category, key, watched, shape, first, second) = ANYWHERE[row];
        let ghost before = swept;
        let fires = edge_holds(shape, first, second, snes.watch(watched)) && settings.is_active(
            key,
        );
        if fires {
            swept = swept.with(category);
        }
        proof {
            assert(fires == anywhere_fires(settings@, snes.watchers(), row as int));
            assert forall|other: Category|
                #[trigger] swept.has(other) == (fired.has(other) || anywhere_hits(
                    settings@,
                    snes.watchers(),
                    other,
                    row + 1,
                )) by {
                if anywhere_hits(settings@, snes.watchers(), other, row + 1) {
                    let r = choose|r: int|
                        0 <= r < row + 1 && #[trigger] anywhere_fires(settings@, snes.watchers(), r)
                            && ANYWHERE[r].0 == other;
                    if r < row {
                        assert(anywhere_hits(settings@, snes.watchers(), other, row as int));
                    }
                }
                if anywhere_hits(settings@, snes.watchers(), other, row as int) {
                    let r = choose|r: int|
                        0 <= r < row && #[trigger] anywhere_fires(settings@, snes.watchers(), r)
                            && ANYWHERE[r].0 == other;
                    assert(0 <= r < row + 1);
                }
                assert(before.has(other) == (fired.has(other) || anywhere_hits(
                    settings@,
                    snes.watchers(),
                    other,
                    row as int,
                )));
            }
        }
        row += 1;
    }
    swept
}

/// Adds to `fired` what the rows of `IN_ROOM` bring.
fn sweep_in_room(settings: &Settings, snes: &SNESState, fired: Fired) -> (swept: Fired)
    ensures
        forall|category: Category|
            #[trigger] swept.has(category) == (fired.has(category) || in_room_hits(
                settings@,
                snes.watchers(),
                category,
                IN_ROOM_COUNT as int,
            )),
{
    proof {
        lemma_rows_name_what_exists();
    }
    let here = snes.watch(watch::ROOM_ID).current;
    let mut swept = fired;
    let mut row: usize = 0;
    while row < IN_ROOM_COUNT
        invariant
            row <= IN_ROOM_COUNT,
            here == snes.watchers()[watch::ROOM_ID as int].current,
            forall|r: int|
                0 <= r < IN_ROOM_COUNT ==> (#[trigger] IN_ROOM[r]).1 < KEY_COUNT && IN_ROOM[r].3
                    < WATCH_COUNT,
            forall|category: Category|
                #[trigger] swept.has(category) == (fired.has(category) || in_room_hits(
                    settings@,
                    snes.watchers(),
                    category,
                    row as int,
                )),
        decreases IN_ROOM_COUNT - row,
    {
        let (category, key, room, watched, shape, first, second) = IN_ROOM[row];
        let ghost before = swept;
        let fires = here == room && edge_holds(shape, first, second, snes.watch(watched))
            && settings.is_active(key);
        if fires {
            swept = swept.with(category);
        }
        proof {
            assert(fires == in_room_fires(settings@, snes.watchers(), row as int));
            assert forall|other: Category|
                #[trigger] swept.has(other) == (fired.has(other) || in_room_hits(
                    settings@,
                    snes.watchers(),
                    other,
                    row + 1,
                )) by {
                if in_room_hits(settings@, snes.watchers(), other, row + 1) {
                    let r = choose|r: int|
                        0 <= r < row + 1 && #[trigger] in_room_fires(settings@, snes.watchers(), r)
                            && IN_ROOM[r].0 == other;
                    if r < row {
                        assert(in_room_hits(settings@, snes.watchers(), other, row as int));
                    }
                }
                if in_room_hits(settings@, snes.watchers(), other, row as int) {
                    let r = choose|r: int|
                        0 <= r < row && #[trigger] in_room_fires(settings@, snes.watchers(), r)
                            && IN_ROOM[r].0 == other;
                    assert(0 <= r < row + 1);
                }
                assert(before.has(other) == (fired.has(other) || in_room_hits(
                    settings@,
                    snes.watchers(),
                    other,
                    row as int,
                )));
            }
        }
        row += 1;
    }
    swept
}

/// Whether a bit of `mask` is set in the current value of watched value `watched`.
fn bit_set(snes: &SNESState, watched: usize, mask: u32) -> (set: bool)
    requires
        watched < WATCH_COUNT,
    ensures
        set == (snes.watchers()[watched as int].current & mask != 0),
{
    snes.watch(watched).current & mask != 0
}

/// Whether Mother Brain's health shows the start of the phase that begins with `health`.
fn mother_brain_phase_holds(snes: &SNESState, health: u32) -> (holds: bool)
    ensures
        holds == mother_brain_phase(snes.watchers(), health),
{
    let brain = snes.watch(watch::MOTHER_BRAIN_HP);
    snes.watch(watch::ROOM_ID).current == rooms::MOTHER_BRAIN && snes.watch(
        watch::GAME_STATE,
    ).current == game::STATE_NORMAL_GAMEPLAY && brain.old == 0 && brain.current == health
}

/// Whether the hall of the statues is entered with the four main bosses defeated.
fn golden_four_holds(settings: &Settings, snes: &SNESState) -> (holds: bool)
    ensures
        holds == golden_four(settings@, snes.watchers()),
{
    let room = snes.watch(watch::ROOM_ID);
    let all_bosses_finished = bit_set(snes, watch::BRINSTAR_BOSSES, game::BOSS_KRAID) && bit_set(
        snes,
        watch::WRECKED_SHIP_BOSSES,
        game::BOSS_PHANTOON,
    ) && bit_set(snes, watch::MARIDIA_BOSSES, game::BOSS_DRAYGON) && bit_set(
        snes,
        watch::NORFAIR_BOSSES,
        game::BOSS_RIDLEY,
    );
    settings.is_active(keys::GOLDEN_FOUR) && room.old == rooms::STATUES_HALLWAY && room.current
        == rooms::STATUES && all_bosses_finished
}

/// Whether the first or the second phase of Mother Brain ends, with its toggle.
fn mother_brain_holds(settings: &Settings, snes: &SNESState) -> (holds: bool)
    ensures
        holds == mother_brain(settings@, snes.watchers()),
{
    let mb1 = settings.is_active(keys::MB1) && mother_brain_phase_holds(
        snes,
        game::MOTHER_BRAIN_PHASE2,
    );
    let mb2 = settings.is_active(keys::MB2) && mother_brain_phase_holds(
        snes,
        game::MOTHER_BRAIN_PHASE3,
    );
    mb1 || mb2
}

/// Whether the ship takes off while the planet burns.
fn escape_holds(settings: &Settings, snes: &SNESState) -> (holds: bool)
    ensures
        holds == escape(settings@, snes.watchers()),
{
    let ship = snes.watch(watch::SHIP_AI);
    settings.is_active(keys::RTA_FINISH) && bit_set(
        snes,
        watch::EVENT_FLAGS,
        game::EVENT_ZEBES_ABLAZE,
    ) && ship.old != game::SHIP_AI_TAKEOFF && ship.current == game::SHIP_AI_TAKEOFF
}

/// Moves the two latches on by one cycle, and says whether one of them fired.
fn step_latches(settings: &Settings, snes: &mut SNESState) -> (finish: bool)
    ensures
        finish == latched_finish(
            settings@,
            old(snes).watchers(),
            old(snes).hundredth_missile(),
            old(snes).spore_spawn_super(),
        ),
        final(snes).hundredth_missile() == hundredth_missile_after(
            settings@,
            old(snes).watchers(),
            old(snes).hundredth_missile(),
        ),
        final(snes).spore_spawn_super() == spore_spawn_super_after(
            settings@,
            old(snes).watchers(),
            old(snes).spore_spawn_super(),
        ),
        final(snes).watchers() == old(snes).watchers(),
        final(snes).image() == old(snes).image(),
        final(snes).primed() == old(snes).primed(),
        final(snes).samples() == old(snes).samples(),
{
    let clock = snes.watch(watch::IGT_FRAMES);
    let ticked = clock.old != clock.current;
    let supers = snes.watch(watch::MAX_SUPERS);
    let missiles = snes.watch(watch::MAX_MISSILES);
    let (hundredth_missile, spore_spawn_super) = snes.latches();
    let spore_spawn_super_taken = snes.watch(watch::ROOM_ID).current == rooms::SPORE_SPAWN_SUPER
        && supers.old as u64 + 5 == supers.current as u64 && bit_set(
        snes,
        watch::BRINSTAR_BOSSES,
        game::BOSS_SPORE_SPAWN,
    );
    let hundredth_missile_taken = missiles.old == 95 && missiles.current == 100;
    let (spore_spawn_super_next, spore_spawn_finish) = spore_spawn_super.step(
        settings.is_active(keys::SPORE_SPAWN_RTA_FINISH),
        spore_spawn_super_taken,
        ticked,
    );
    let (hundredth_missile_next, hundredth_missile_finish) = hundredth_missile.step(
        settings.is_active(keys::HUNDRED_MISSILE_RTA_FINISH),
        hundredth_missile_taken,
        ticked,
    );
    snes.set_latches(hundredth_missile_next, spore_spawn_super_next);
    spore_spawn_finish || hundredth_missile_finish
}

/// Events that hold kind by kind what `category_fires` says are the events of the cycle.
proof fn lemma_events_by_kind(
    fired: Fired,
    flags: Seq<bool>,
    values: Seq<MemoryWatcher>,
    hundredth_missile: Latch,
    spore_spawn_super: Latch,
)
    requires
        forall|category: Category|
            #[trigger] fired.has(category) == category_fires(
                flags,
                values,
                hundredth_missile,
                spore_spawn_super,
                category,
            ),
    ensures
        fired == events(flags, values, hundredth_missile, spore_spawn_super),
{
    let expected = events(flags, values, hundredth_missile, spore_spawn_super);
    assert(fired.has(Category::Pickup) == expected.pickup);
    assert(fired.has(Category::Unlock) == expected.unlock);
    assert(fired.has(Category::Beam) == expected.beam);
    assert(fired.has(Category::EnergyUpgrade) == expected.energy_upgrade);
    assert(fired.has(Category::RoomTransition) == expected.room_transition);
    assert(fired.has(Category::MinibossDefeat) == expected.miniboss_defeat);
    assert(fired.has(Category::BossDefeat) == expected.boss_defeat);
    assert(fired.has(Category::RunFinish) == expected.run_finish);
    assert(fired.has(Category::NonStandardFinish) == expected.non_standard_finish);
}

/// Evaluates every rule on the watched values as the latest update left them, moves the two
/// latches on by one cycle and says which kinds of event the cycle brought.
pub fn evaluate(settings: &Settings, snes: &mut SNESState) -> (fired: Fired)
    ensures
        fired == events(
            settings@,
            old(snes).watchers(),
            old(snes).hundredth_missile(),
            old(snes).spore_spawn_super(),
        ),
        final(snes).hundredth_missile() == hundredth_missile_after(
            settings@,
            old(snes).watchers(),
            old(snes).hundredth_missile(),
        ),
        final(snes).spore_spawn_super() == spore_spawn_super_after(
            settings@,
            old(snes).watchers(),
            old(snes).spore_spawn_super(),
        ),
        final(snes).watchers() == old(snes).watchers(),
        final(snes).image() == old(snes).image(),
        final(snes).primed() == old(snes).primed(),
        final(snes).samples() == old(snes).samples(),
{
    let mut fired = sweep_in_room(settings, snes, sweep_anywhere(settings, snes, Fired::none()));
    if golden_four_holds(settings, snes) {
        fired = fired.with(Category::RoomTransition);
    }
    if mother_brain_holds(settings, snes) {
        fired = fired.with(Category::BossDefeat);
    }
    if escape_holds(settings, snes) {
        fired = fired.with(Category::RunFinish);
    }
    if step_latches(settings, snes) {
        fired = fired.with(Category::NonStandardFinish);
    }
    proof {
        lemma_events_by_kind(
            fired,
            settings@,
            old(snes).watchers(),
            old(snes).hundredth_missile(),
            old(snes).spore_spawn_super(),
        );
    }
    fired
}

/// Whether the cycle makes a split: whether it brought an event of any kind. The latches
/// move on as in `evaluate`.
pub fn split(settings: &Settings, snes: &mut SNESState) -> (split: bool)
    ensures
        split == events(
            settings@,
            old(snes).watchers(),
            old(snes).hundredth_missile(),
            old(snes).spore_spawn_super(),
        ).splits(),
        final(snes).hundredth_missile() == hundredth_missile_after(
            settings@,
            old(snes).watchers(),
            old(snes).hundredth_missile(),
        ),
        final(snes).spore_spawn_super() == spore_spawn_super_after(
            settings@,
            old(snes).watchers(),
            old(snes).spore_spawn_super(),
        ),
        final(snes).watchers() == old(snes).watchers(),
        final(snes).image() == old(snes).image(),
        final(snes).primed() == old(snes).primed(),
        final(snes).samples() == old(snes).samples(),
{
    evaluate(settings, snes).any()
}

/// A first pickup is a pickup: a value that goes from nothing to `amount` has risen by
/// `amount`. A later rise by `amount`, from a value that was there, is no first pickup.
pub proof fn lemma_first_pickup_is_a_pickup(value: MemoryWatcher, amount: u32)
    ensures
        edge(Shape::Transition, 0, amount, value) ==> edge(Shape::Delta, amount, 0, value),
        edge(Shape::Delta, amount, 0, value) && value.old != 0 ==> !edge(
            Shape::Transition,
            0,
            amount,
            value,
        ),
{
}

/// A bit that goes from unset to set fires the rule of its own mask and of no mask that is
/// apart from it, whatever else the byte holds.
pub proof fn lemma_bit_transition_is_selective(value: MemoryWatcher, mask: u32, other: u32)
    requires
        mask != 0,
        value.old & mask == 0,
        value.current == value.old | mask,
        other & mask == 0,
    ensures
        edge(Shape::BitTransition, mask, 0, value),
        !edge(Shape::BitTransition, other, 0, value),
{
    let before = value.old;
    assert((before | mask) & mask != 0) by (bit_vector)
        requires
            mask != 0,
    ;
    assert((before | mask) & other == before & other) by (bit_vector)
        requires
            other & mask == 0,
    ;
}

/// While one bit of a watched value goes from unset to set, no rule that waits for another
/// bit of that value fires.
pub proof fn lemma_bit_rules_do_not_cross(
    flags: Seq<bool>,
    values: Seq<MemoryWatcher>,
    row: int,
    mask: u32,
)
    requires
        0 <= row < IN_ROOM_COUNT,
        IN_ROOM[row].4 == Shape::BitTransition,
        mask != 0,
        IN_ROOM[row].5 & mask == 0,
        values[IN_ROOM[row].3 as int].old & mask == 0,
        values[IN_ROOM[row].3 as int].current == values[IN_ROOM[row].3 as int].old | mask,
    ensures
        !in_room_fires(flags, values, row),
{
    lemma_bit_transition_is_selective(values[IN_ROOM[row].3 as int], mask, IN_ROOM[row].5);
}

} // verus!
