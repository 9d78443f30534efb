//! The catalogue of toggles: one row for each, with its key, its name, the value it starts with
//! and the toggle above it. A toggle is named in the rest of the crate by its key, the number
//! of its row.
use crate::text::{letter, same_text};
use vstd::prelude::*;

verus! {

/// Stands in a row's last column when the toggle has no parent.
pub const ROOT: usize = usize::MAX;

/// The number of toggles.
pub const KEY_COUNT: usize = 170;

/// Splits on Missiles, Super Missiles, and Power Bombs.
pub const AMMO_PICKUPS: usize = 0;
/// Splits on the first Missile pickup.
pub const FIRST_MISSILE: usize = 1;
/// Splits on each Missile upgrade.
pub const ALL_MISSILES: usize = 2;
/// Splits on specific Missile Pack locations.
pub const SPECIFIC_MISSILES: usize = 3;
/// Splits on Crateria Missile Pack locations.
pub const CRATERIA_MISSILES: usize = 4;
/// Splits on picking up the Missile Pack located at the bottom left of the West Ocean.
pub const OCEAN_BOTTOM_MISSILES: usize = 5;
/// Splits on picking up the Missile Pack located in the ceiling tile in West Ocean.
pub const OCEAN_TOP_MISSILES: usize = 6;
/// Splits on picking up the Missile Pack located in the Morphball maze section of West Ocean.
pub const OCEAN_MIDDLE_MISSILES: usize = 7;
/// Splits on picking up the Missile Pack in The Moat, also known as The Lake.
pub const MOAT_MISSILES: usize = 8;
/// Splits on picking up the Missile Pack in the Pit Room.
pub const OLD_TOURIAN_MISSILES: usize = 9;
/// Splits on picking up the right side Missile Pack at the end of Gauntlet(Green Pirates Shaft).
pub const GAUNTLET_RIGHT_MISSILES: usize = 10;
/// Splits on picking up the left side Missile Pack at the end of Gauntlet(Green Pirates Shaft).
pub const GAUNTLET_LEFT_MISSILES: usize = 11;
/// Splits on picking up the Missile Pack located in The Final Missile.
pub const DENTAL_PLAN: usize = 12;
/// Splits on Brinstar Missile Pack locations.
pub const BRINSTAR_MISSILES: usize = 13;
/// Splits on picking up the Missile Pack located below the crumble bridge in the Early Supers Room.
pub const EARLY_SUPER_BRIDGE_MISSILES: usize = 14;
/// Splits on picking up the first Missile Pack behind the Brinstar Reserve Tank.
pub const GREEN_BRINSTAR_RESERVE_MISSILES: usize = 15;
/// Splits on picking up the second Missile Pack behind the Brinstar Reserve Tank Room.
pub const GREEN_BRINSTAR_EXTRA_RESERVE_MISSILES: usize = 16;
/// Splits on picking up the Missile Pack located left of center in Big Pink.
pub const BIG_PINK_TOP_MISSILES: usize = 17;
/// Splits on picking up the Missile Pack located at the bottom left of Big Pink.
pub const CHARGE_MISSILES: usize = 18;
/// Splits on picking up the Missile Pack in Green Hill Zone.
pub const GREEN_HILLS_MISSILES: usize = 19;
/// Splits on picking up the Missile Pack in the Blue Brinstar Energy Tank Room.
pub const BLUE_BRINSTAR_ETANK_MISSILES: usize = 20;
/// Splits on picking up the first Missile Pack of the game(First Missile Room).
pub const ALPHA_MISSILES: usize = 21;
/// Splits on picking up the Missile Pack located on the pedestal in Billy Mays' Room.
pub const BILLY_MAYS_MISSILES: usize = 22;
/// Splits on picking up the Missile Pack located in the floor of Billy Mays' Room.
pub const BUT_WAIT_THERES_MORE_MISSILES: usize = 23;
/// Splits on picking up the Missile Pack in the Alpha Power Bombs Room.
pub const RED_BRINSTAR_MISSILES: usize = 24;
/// Splits on picking up the Missile Pack in the Warehouse Kihunter Room.
pub const WAREHOUSE_MISSILES: usize = 25;
/// Splits on Norfair Missile Pack locations.
pub const NORFAIR_MISSILES: usize = 26;
/// Splits on picking up the Missile Pack in Cathedral.
pub const CATHEDRAL_MISSILES: usize = 27;
/// Splits on picking up the Missile Pack in Crumble Shaft.
pub const CRUMBLE_SHAFT_MISSILES: usize = 28;
/// Splits on picking up the Missile Pack in Crocomire Escape.
pub const CROCOMIRE_ESCAPE_MISSILES: usize = 29;
/// Splits on picking up the Missile Pack in the Hi Jump Energy Tank Room.
pub const HI_JUMP_MISSILES: usize = 30;
/// Splits on picking up the Missile Pack in the Post Crocomire Missile Room, also known as
/// Cosine Room.
pub const POST_CROCOMIRE_MISSILES: usize = 31;
/// Splits on picking up the Missile Pack in the Post Crocomire Jump Room.
pub const GRAPPLE_MISSILES: usize = 32;
/// Splits on picking up the Missile Pack in the Norfair Reserve Tank Room.
pub const NORFAIR_RESERVE_MISSILES: usize = 33;
/// Splits on picking up the Missile Pack in the Green Bubbles Missile Room.
pub const GREEN_BUBBLES_MISSILES: usize = 34;
/// Splits on picking up the Missile Pack in Bubble Mountain.
pub const BUBBLE_MOUNTAIN_MISSILES: usize = 35;
/// Splits on picking up the Missile Pack in Speed Booster Hall.
pub const SPEED_BOOST_MISSILES: usize = 36;
/// Splits on picking up the Wave Missile Pack in Double Chamber.
pub const WAVE_MISSILES: usize = 37;
/// Splits on picking up the Missile Pack in the Golden Torizo's Room.
pub const GOLD_TORIZO_MISSILES: usize = 38;
/// Splits on picking up the Missile Pack in the Mickey Mouse Room.
pub const MICKEY_MOUSE_MISSILES: usize = 39;
/// Splits on picking up the Missile Pack in the Lower Norfair Springball Maze Room.
pub const LOWER_NORFAIR_SPRING_MAZE_MISSILES: usize = 40;
/// Splits on picking up the Missile Pack in the The Musketeers' Room.
pub const THREE_MUSKETEERS_MISSILES: usize = 41;
/// Splits on Wrecked Ship Missile Pack locations.
pub const WRECKED_SHIP_MISSILES: usize = 42;
/// Splits on picking up the Missile Pack in Wrecked Ship Main Shaft.
pub const WRECKED_SHIP_MAIN_SHAFT_MISSILES: usize = 43;
/// Splits on picking up the Missile Pack in Bowling Alley.
pub const BOWLING_MISSILES: usize = 44;
/// Splits on picking up the Missile Pack in the Wrecked Ship East Missile Room.
pub const ATTIC_MISSILES: usize = 45;
/// Splits on Maridia Missile Pack locations.
pub const MARIDIA_MISSILES: usize = 46;
/// Splits on picking up the Missile Pack in Main Street.
pub const MAIN_STREET_MISSILES: usize = 47;
/// Splits on picking up the Missile Pack in the Mama Turtle Room.
pub const MAMA_TURTLE_MISSILES: usize = 48;
/// Splits on picking up the Missile Pack in Watering Hole.
pub const WATERING_HOLE_MISSILES: usize = 49;
/// Splits on picking up the Missile Pack in the Pseudo Plasma Spark Room.
pub const BEACH_MISSILES: usize = 50;
/// Splits on picking up the Missile Pack in West Sand Hole.
pub const LEFT_SAND_PIT_MISSILES: usize = 51;
/// Splits on picking up the Missile Pack in East Sand Hole.
pub const RIGHT_SAND_PIT_MISSILES: usize = 52;
/// Splits on picking up the Missile Pack in Aqueduct.
pub const AQUEDUCT_MISSILES: usize = 53;
/// Splits on picking up the Missile Pack in The Precious Room.
pub const PRE_DRAYGON_MISSILES: usize = 54;
/// Splits on the first Super Missile pickup.
pub const FIRST_SUPER: usize = 55;
/// Splits on each Super Missile upgrade.
pub const ALL_SUPERS: usize = 56;
/// Splits on specific Super Missile Pack locations.
pub const SPECIFIC_SUPERS: usize = 57;
/// Splits on picking up the Super Missile Pack in the Crateria Super Room.
pub const CLIMB_SUPERS: usize = 58;
/// Splits on picking up the Super Missile Pack in the Spore Spawn Super Room.
pub const SPORE_SPAWN_SUPERS: usize = 59;
/// Splits on picking up the Super Missile Pack in the Early Supers Room.
pub const EARLY_SUPERS: usize = 60;
/// Splits on picking up the Super Missile Pack in the Etacoon Super Room.
pub const ETACOON_SUPERS: usize = 61;
/// Splits on picking up the Super Missile Pack in the Golden Torizo's Room.
pub const GOLD_TORIZO_SUPERS: usize = 62;
/// Splits on picking up the Super Missile Pack in the Wrecked Ship West Super Room.
pub const WRECKED_SHIP_LEFT_SUPERS: usize = 63;
/// Splits on picking up the Super Missile Pack in the Wrecked Ship East Super Room.
pub const WRECKED_SHIP_RIGHT_SUPERS: usize = 64;
/// Splits on picking up the Super Missile Pack in Main Street.
pub const CRAB_SUPERS: usize = 65;
/// Splits on picking up the Super Missile Pack in Watering Hole.
pub const WATERING_HOLE_SUPERS: usize = 66;
/// Splits on picking up the Super Missile Pack in Aqueduct.
pub const AQUEDUCT_SUPERS: usize = 67;
/// Splits on the first Power Bomb pickup.
pub const FIRST_POWER_BOMB: usize = 68;
/// Splits on each Power Bomb upgrade.
pub const ALL_POWER_BOMBS: usize = 69;
/// Splits on specific Power Bomb Pack locations.
pub const SPECIFIC_BOMBS: usize = 70;
/// Splits on picking up the Power Bomb Pack in the Crateria Power Bomb Room.
pub const LANDING_SITE_BOMBS: usize = 71;
/// Splits on picking up the Power Bomb Pack in the Etacoon Room section of Green Brinstar
/// Main Shaft.
pub const ETACOON_BOMBS: usize = 72;
/// Splits on picking up the Power Bomb Pack in the Pink Brinstar Power Bomb Room.
pub const PINK_BRINSTAR_BOMBS: usize = 73;
/// Splits on picking up the Power Bomb Pack in the Morph Ball Room.
pub const BLUE_BRINSTAR_BOMBS: usize = 74;
/// Splits on picking up the Power Bomb Pack in the Alpha Power Bomb Room.
pub const ALPHA_BOMBS: usize = 75;
/// Splits on picking up the Power Bomb Pack in the Beta Power Bomb Room.
pub const BETA_BOMBS: usize = 76;
/// Splits on picking up the Power Bomb Pack in the Post Crocomire Power Bomb Room.
pub const CROCOMIRE_BOMBS: usize = 77;
/// Splits on picking up the Power Bomb Pack in the Lower Norfair Escape Power Bomb Room.
pub const LOWER_NORFAIR_ESCAPE_BOMBS: usize = 78;
/// Splits on picking up the Power Bomb Pack in Wasteland.
pub const SHAME_BOMBS: usize = 79;
/// Splits on picking up the Power Bomb Pack in East Sand Hall.
pub const RIGHT_SAND_PIT_BOMBS: usize = 80;
/// Splits on Varia and Gravity pickups.
pub const SUIT_UPGRADES: usize = 81;
/// Splits on picking up the Varia Suit.
pub const VARIA_SUIT: usize = 82;
/// Splits on picking up the Gravity Suit.
pub const GRAV_SUIT: usize = 83;
/// Splits on beam upgrades.
pub const BEAM_UPGRADES: usize = 84;
/// Splits on picking up the Charge Beam.
pub const CHARGE_BEAM: usize = 85;
/// Splits on picking up the Spazer.
pub const SPAZER: usize = 86;
/// Splits on picking up the Wave Beam.
pub const WAVE: usize = 87;
/// Splits on picking up the Ice Beam.
pub const ICE: usize = 88;
/// Splits on picking up the Plasma Beam.
pub const PLASMA: usize = 89;
/// Splits on boot upgrades.
pub const BOOT_UPGRADES: usize = 90;
/// Splits on picking up the Hi-Jump Boots.
pub const HI_JUMP: usize = 91;
/// Splits on picking up Space Jump.
pub const SPACE_JUMP: usize = 92;
/// Splits on picking up the Speed Booster.
pub const SPEED_BOOSTER: usize = 93;
/// Splits on Energy Tanks and Reserve Tanks.
pub const ENERGY_UPGRADES: usize = 94;
/// Splits on picking up the first Energy Tank.
pub const FIRST_ETANK: usize = 95;
/// Splits on picking up each Energy Tank.
pub const ALL_ETANKS: usize = 96;
/// Splits on specific Energy Tank locations.
pub const SPECIFIC_ETANKS: usize = 97;
/// Splits on picking up the Energy Tank in the Gauntlet Energy Tank Room.
pub const GAUNTLET_ETANK: usize = 98;
/// Splits on picking up the Energy Tank in the Terminator Room.
pub const TERMINATOR_ETANK: usize = 99;
/// Splits on picking up the Energy Tank in the Blue Brinstar Energy Tank Room.
pub const CEILING_ETANK: usize = 100;
/// Splits on picking up the Energy Tank in the Etacoon Energy Tank Room.
pub const ETECOONS_ETANK: usize = 101;
/// Splits on picking up the Energy Tank in Waterway.
pub const WATERWAY_ETANK: usize = 102;
/// Splits on picking up the Energy Tank in the Hopper Energy Tank Room.
pub const WAVE_GATE_ETANK: usize = 103;
/// Splits on picking up the Kraid Energy Tank in the Warehouse Energy Tank Room.
pub const KRAID_ETANK: usize = 104;
/// Splits on picking up the Energy Tank in Crocomire's Room.
pub const CROCOMIRE_ETANK: usize = 105;
/// Splits on picking up the Energy Tank in the Hi Jump Energy Tank Room.
pub const HI_JUMP_ETANK: usize = 106;
/// Splits on picking up the Energy Tank in the Ridley Tank Room.
pub const RIDLEY_ETANK: usize = 107;
/// Splits on picking up the Energy Tank in the Lower Norfair Fireflea Room.
pub const FIREFLEA_ETANK: usize = 108;
/// Splits on picking up the Energy Tank in the Wrecked Ship Energy Tank Room.
pub const WRECKED_SHIP_ETANK: usize = 109;
/// Splits on picking up the Energy Tank in the Mama Turtle Room.
pub const TATORI_ETANK: usize = 110;
/// Splits on picking up the Energy Tank in the Botwoon Energy Tank Room.
pub const BOTWOON_ETANK: usize = 111;
/// Splits on picking up each Reserve Tank.
pub const RESERVE_TANKS: usize = 112;
/// Splits on specific Reserve Tank locations.
pub const SPECIFIC_RTANKS: usize = 113;
/// Splits on picking up the Reserve Tank in the Brinstar Reserve Tank Room.
pub const BRINSTAR_RESERVE: usize = 114;
/// Splits on picking up the Reserve Tank in the Norfair Reserve Tank Room.
pub const NORFAIR_RESERVE: usize = 115;
/// Splits on picking up the Reserve Tank in Bowling Alley.
pub const WRECKED_SHIP_RESERVE: usize = 116;
/// Splits on picking up the Reserve Tank in West Sand Hole.
pub const MARIDIA_RESERVE: usize = 117;
/// Splits on the miscellaneous upgrades.
pub const MISC_UPGRADES: usize = 118;
/// Splits on picking up the Morphing Ball.
pub const MORPH_BALL: usize = 119;
/// Splits on picking up the Bomb.
pub const BOMB: usize = 120;
/// Splits on picking up the Spring Ball.
pub const SPRING_BALL: usize = 121;
/// Splits on picking up the Screw Attack.
pub const SCREW_ATTACK: usize = 122;
/// Splits on picking up the Grapple Beam.
pub const GRAPPLE: usize = 123;
/// Splits on picking up the X-Ray Scope.
pub const XRAY: usize = 124;
/// Splits on transitions between areas.
pub const AREA_TRANSITIONS: usize = 125;
/// Splits on entering miniboss rooms (except Bomb Torizo).
pub const MINI_BOSS_ROOMS: usize = 126;
/// Splits on entering major boss rooms.
pub const BOSS_ROOMS: usize = 127;
/// Splits on elevator transitions between areas (except Statue Room to Tourian).
pub const ELEVATOR_TRANSITIONS: usize = 128;
/// Splits on leaving Ceres Station.
pub const CERES_ESCAPE: usize = 129;
/// Splits on entering the Wrecked Ship Entrance from the lower door of West Ocean.
pub const WRECKED_SHIP_ENTRANCE: usize = 130;
/// Splits on entering Red Tower from Noob Bridge.
pub const RED_TOWER_MIDDLE_ENTRANCE: usize = 131;
/// Splits on entering Red Tower from Skree Boost room.
pub const RED_TOWER_BOTTOM_ENTRANCE: usize = 132;
/// Splits on entering Kraid's Lair.
pub const KRAIDS_LAIR: usize = 133;
/// Splits on entering Rising Tide from Cathedral.
pub const RISING_TIDE_ENTRANCE: usize = 134;
/// Splits on exiting Attic.
pub const ATTIC_EXIT: usize = 135;
/// Splits on blowing up the tube to enter Maridia.
pub const TUBE_BROKEN: usize = 136;
/// Splits on exiting West Cacattack Alley.
pub const CAC_EXIT: usize = 137;
/// Splits on entering Toilet Bowl from either direction.
pub const TOILET: usize = 138;
/// Splits on entering Kronic Boost room.
pub const KRONIC_BOOST: usize = 139;
/// Splits on the elevator down to Lower Norfair.
pub const LOWER_NORFAIR_ENTRANCE: usize = 140;
/// Splits on entering Worst Room in the Game.
pub const WRITG: usize = 141;
/// Splits on entering Red Kihunter Shaft from either Amphitheatre or Wastelands (this splits
/// twice).
pub const RED_KI_SHAFT: usize = 142;
/// Splits on entering Metal Pirates Room from Wasteland.
pub const METAL_PIRATES: usize = 143;
/// Splits on entering Lower Norfair Springball Maze Room.
pub const LOWER_NORFAIR_SPRING_MAZE: usize = 144;
/// Splits on moving from the Three Musketeers' Room to the Single Chamber.
pub const LOWER_NORFAIR_EXIT: usize = 145;
/// Splits on entering the Statues Room with all four major bosses defeated.
pub const GOLDEN_FOUR: usize = 146;
/// Splits on the elevator down to Tourian.
pub const TOURIAN_ENTRANCE: usize = 147;
/// Splits on exiting each of the Metroid rooms in Tourian.
pub const METROIDS: usize = 148;
/// Splits on moving from the Dust Torizo Room to the Big Boy Room.
pub const BABY_METROID_ROOM: usize = 149;
/// Splits on moving from Tourian Escape Room 4 to The Climb.
pub const ESCAPE_CLIMB: usize = 150;
/// Splits on defeating minibosses.
pub const MINI_BOSSES: usize = 151;
/// Splits on starting the Ceres Escape.
pub const CERES_RIDLEY: usize = 152;
/// Splits on Bomb Torizo's drops appearing.
pub const BOMB_TORIZO: usize = 153;
/// Splits on the last hit to Spore Spawn.
pub const SPORE_SPAWN: usize = 154;
/// Splits on Crocomire's drops appearing.
pub const CROCOMIRE: usize = 155;
/// Splits on Botwoon's vertical column being fully destroyed.
pub const BOTWOON: usize = 156;
/// Splits on Golden Torizo's drops appearing.
pub const GOLDEN_TORIZO: usize = 157;
/// Splits on defeating major bosses.
pub const BOSSES: usize = 158;
/// Split shortly after Kraid's drops appear.
pub const KRAID: usize = 159;
/// Splits on Phantoon's drops appearing.
pub const PHANTOON: usize = 160;
/// Splits on Draygon's drops appearing.
pub const DRAYGON: usize = 161;
/// Splits on Ridley's drops appearing.
pub const RIDLEY: usize = 162;
/// Splits on Mother Brain's head hitting the ground at the end of the first phase.
pub const MB1: usize = 163;
/// Splits on the Baby Metroid detaching from Mother Brain's head.
pub const MB2: usize = 164;
/// Splits on the start of the Zebes Escape.
pub const MB3: usize = 165;
/// Splits on facing forward at the end of Zebes Escape.
pub const RTA_FINISH: usize = 166;
/// Splits on In-Game Time finalizing, when the end cutscene starts.
pub const IGT_FINISH: usize = 167;
/// Splits on the end of a Spore Spawn RTA run, when the text box clears after collecting the
/// Super Missiles.
pub const SPORE_SPAWN_RTA_FINISH: usize = 168;
/// Splits on the end of a 100 Missile RTA run, when the text box clears after collecting the
/// hundredth missile.
pub const HUNDRED_MISSILE_RTA_FINISH: usize = 169;

/// Key, name, starting value and parent of each toggle. A parent stands above its children.
pub const CATALOGUE: [(usize, &'static str, bool, usize); 170] = [
    (AMMO_PICKUPS, "ammoPickups", true, ROOT),
    (FIRST_MISSILE, "firstMissile", false, AMMO_PICKUPS),
    (ALL_MISSILES, "allMissiles", false, AMMO_PICKUPS),
    (SPECIFIC_MISSILES, "specificMissiles", false, AMMO_PICKUPS),
    (CRATERIA_MISSILES, "crateriaMissiles", false, SPECIFIC_MISSILES),
    (OCEAN_BOTTOM_MISSILES, "oceanBottomMissiles", false, CRATERIA_MISSILES),
    (OCEAN_TOP_MISSILES, "oceanTopMissiles", false, CRATERIA_MISSILES),
    (OCEAN_MIDDLE_MISSILES, "oceanMiddleMissiles", false, CRATERIA_MISSILES),
    (MOAT_MISSILES, "moatMissiles", false, CRATERIA_MISSILES),
    (OLD_TOURIAN_MISSILES, "oldTourianMissiles", false, CRATERIA_MISSILES),
    (GAUNTLET_RIGHT_MISSILES, "gauntletRightMissiles", false, CRATERIA_MISSILES),
    (GAUNTLET_LEFT_MISSILES, "gauntletLeftMissiles", false, CRATERIA_MISSILES),
    (DENTAL_PLAN, "dentalPlan", false, CRATERIA_MISSILES),
    (BRINSTAR_MISSILES, "brinstarMissiles", false, SPECIFIC_MISSILES),
    (EARLY_SUPER_BRIDGE_MISSILES, "earlySuperBridgeMissiles", false, BRINSTAR_MISSILES),
    (GREEN_BRINSTAR_RESERVE_MISSILES, "greenBrinstarReserveMissiles", false, BRINSTAR_MISSILES),
    (GREEN_BRINSTAR_EXTRA_RESERVE_MISSILES, "greenBrinstarExtraReserveMissiles", false, BRINSTAR_MISSILES),
    (BIG_PINK_TOP_MISSILES, "bigPinkTopMissiles", false, BRINSTAR_MISSILES),
    (CHARGE_MISSILES, "chargeMissiles", false, BRINSTAR_MISSILES),
    (GREEN_HILLS_MISSILES, "greenHillsMissiles", false, BRINSTAR_MISSILES),
    (BLUE_BRINSTAR_ETANK_MISSILES, "blueBrinstarETankMissiles", false, BRINSTAR_MISSILES),
    (ALPHA_MISSILES, "alphaMissiles", false, BRINSTAR_MISSILES),
    (BILLY_MAYS_MISSILES, "billyMaysMissiles", false, BRINSTAR_MISSILES),
    (BUT_WAIT_THERES_MORE_MISSILES, "butWaitTheresMoreMissiles", false, BRINSTAR_MISSILES),
    (RED_BRINSTAR_MISSILES, "redBrinstarMissiles", false, BRINSTAR_MISSILES),
    (WAREHOUSE_MISSILES, "warehouseMissiles", false, BRINSTAR_MISSILES),
    (NORFAIR_MISSILES, "norfairMissiles", false, SPECIFIC_MISSILES),
    (CATHEDRAL_MISSILES, "cathedralMissiles", false, NORFAIR_MISSILES),
    (CRUMBLE_SHAFT_MISSILES, "crumbleShaftMissiles", false, NORFAIR_MISSILES),
    (CROCOMIRE_ESCAPE_MISSILES, "crocomireEscapeMissiles", false, NORFAIR_MISSILES),
    (HI_JUMP_MISSILES, "hiJumpMissiles", false, NORFAIR_MISSILES),
    (POST_CROCOMIRE_MISSILES, "postCrocomireMissiles", false, NORFAIR_MISSILES),
    (GRAPPLE_MISSILES, "grappleMissiles", false, NORFAIR_MISSILES),
    (NORFAIR_RESERVE_MISSILES, "norfairReserveMissiles", false, NORFAIR_MISSILES),
    (GREEN_BUBBLES_MISSILES, "greenBubblesMissiles", false, NORFAIR_MISSILES),
    (BUBBLE_MOUNTAIN_MISSILES, "bubbleMountainMissiles", false, NORFAIR_MISSILES),
    (SPEED_BOOST_MISSILES, "speedBoostMissiles", false, NORFAIR_MISSILES),
    (WAVE_MISSILES, "waveMissiles", false, NORFAIR_MISSILES),
    (GOLD_TORIZO_MISSILES, "goldTorizoMissiles", false, NORFAIR_MISSILES),
    (MICKEY_MOUSE_MISSILES, "mickeyMouseMissiles", false, NORFAIR_MISSILES),
    (LOWER_NORFAIR_SPRING_MAZE_MISSILES, "lowerNorfairSpringMazeMissiles", false, NORFAIR_MISSILES),
    (THREE_MUSKETEERS_MISSILES, "threeMusketeersMissiles", false, NORFAIR_MISSILES),
    (WRECKED_SHIP_MISSILES, "wreckedShipMissiles", false, SPECIFIC_MISSILES),
    (WRECKED_SHIP_MAIN_SHAFT_MISSILES, "wreckedShipMainShaftMissiles", false, WRECKED_SHIP_MISSILES),
    (BOWLING_MISSILES, "bowlingMissiles", false, WRECKED_SHIP_MISSILES),
    (ATTIC_MISSILES, "atticMissiles", false, WRECKED_SHIP_MISSILES),
    (MARIDIA_MISSILES, "maridiaMissiles", false, SPECIFIC_MISSILES),
    (MAIN_STREET_MISSILES, "mainStreetMissiles", false, MARIDIA_MISSILES),
    (MAMA_TURTLE_MISSILES, "mamaTurtleMissiles", false, MARIDIA_MISSILES),
    (WATERING_HOLE_MISSILES, "wateringHoleMissiles", false, MARIDIA_MISSILES),
    (BEACH_MISSILES, "beachMissiles", false, MARIDIA_MISSILES),
    (LEFT_SAND_PIT_MISSILES, "leftSandPitMissiles", false, MARIDIA_MISSILES),
    (RIGHT_SAND_PIT_MISSILES, "rightSandPitMissiles", false, MARIDIA_MISSILES),
    (AQUEDUCT_MISSILES, "aqueductMissiles", false, MARIDIA_MISSILES),
    (PRE_DRAYGON_MISSILES, "preDraygonMissiles", false, MARIDIA_MISSILES),
    (FIRST_SUPER, "firstSuper", false, AMMO_PICKUPS),
    (ALL_SUPERS, "allSupers", false, AMMO_PICKUPS),
    (SPECIFIC_SUPERS, "specificSupers", false, AMMO_PICKUPS),
    (CLIMB_SUPERS, "climbSupers", false, SPECIFIC_SUPERS),
    (SPORE_SPAWN_SUPERS, "sporeSpawnSupers", false, SPECIFIC_SUPERS),
    (EARLY_SUPERS, "earlySupers", false, SPECIFIC_SUPERS),
    (ETACOON_SUPERS, "etacoonSupers", false, SPECIFIC_SUPERS),
    (GOLD_TORIZO_SUPERS, "goldTorizoSupers", false, SPECIFIC_SUPERS),
    (WRECKED_SHIP_LEFT_SUPERS, "wreckedShipLeftSupers", false, SPECIFIC_SUPERS),
    (WRECKED_SHIP_RIGHT_SUPERS, "wreckedShipRightSupers", false, SPECIFIC_SUPERS),
    (CRAB_SUPERS, "crabSupers", false, SPECIFIC_SUPERS),
    (WATERING_HOLE_SUPERS, "wateringHoleSupers", false, SPECIFIC_SUPERS),
    (AQUEDUCT_SUPERS, "aqueductSupers", false, SPECIFIC_SUPERS),
    (FIRST_POWER_BOMB, "firstPowerBomb", true, AMMO_PICKUPS),
    (ALL_POWER_BOMBS, "allPowerBombs", false, AMMO_PICKUPS),
    (SPECIFIC_BOMBS, "specificBombs", false, AMMO_PICKUPS),
    (LANDING_SITE_BOMBS, "landingSiteBombs", false, SPECIFIC_BOMBS),
    (ETACOON_BOMBS, "etacoonBombs", false, SPECIFIC_BOMBS),
    (PINK_BRINSTAR_BOMBS, "pinkBrinstarBombs", false, SPECIFIC_BOMBS),
    (BLUE_BRINSTAR_BOMBS, "blueBrinstarBombs", false, SPECIFIC_BOMBS),
    (ALPHA_BOMBS, "alphaBombs", false, SPECIFIC_BOMBS),
    (BETA_BOMBS, "betaBombs", false, SPECIFIC_BOMBS),
    (CROCOMIRE_BOMBS, "crocomireBombs", false, SPECIFIC_BOMBS),
    (LOWER_NORFAIR_ESCAPE_BOMBS, "lowerNorfairEscapeBombs", false, SPECIFIC_BOMBS),
    (SHAME_BOMBS, "shameBombs", false, SPECIFIC_BOMBS),
    (RIGHT_SAND_PIT_BOMBS, "rightSandPitBombs", false, SPECIFIC_BOMBS),
    (SUIT_UPGRADES, "suitUpgrades", true, ROOT),
    (VARIA_SUIT, "variaSuit", true, SUIT_UPGRADES),
    (GRAV_SUIT, "gravSuit", true, SUIT_UPGRADES),
    (BEAM_UPGRADES, "beamUpgrades", true, ROOT),
    (CHARGE_BEAM, "chargeBeam", false, BEAM_UPGRADES),
    (SPAZER, "spazer", false, BEAM_UPGRADES),
    (WAVE, "wave", true, BEAM_UPGRADES),
    (ICE, "ice", false, BEAM_UPGRADES),
    (PLASMA, "plasma", false, BEAM_UPGRADES),
    (BOOT_UPGRADES, "bootUpgrades", false, ROOT),
    (HI_JUMP, "hiJump", false, BOOT_UPGRADES),
    (SPACE_JUMP, "spaceJump", false, BOOT_UPGRADES),
    (SPEED_BOOSTER, "speedBooster", false, BOOT_UPGRADES),
    (ENERGY_UPGRADES, "energyUpgrades", false, ROOT),
    (FIRST_ETANK, "firstETank", false, ENERGY_UPGRADES),
    (ALL_ETANKS, "allETanks", false, ENERGY_UPGRADES),
    (SPECIFIC_ETANKS, "specificETanks", false, ENERGY_UPGRADES),
    (GAUNTLET_ETANK, "gauntletETank", false, SPECIFIC_ETANKS),
    (TERMINATOR_ETANK, "terminatorETank", false, SPECIFIC_ETANKS),
    (CEILING_ETANK, "ceilingETank", false, SPECIFIC_ETANKS),
    (ETECOONS_ETANK, "etecoonsETank", false, SPECIFIC_ETANKS),
    (WATERWAY_ETANK, "waterwayETank", false, SPECIFIC_ETANKS),
    (WAVE_GATE_ETANK, "waveGateETank", false, SPECIFIC_ETANKS),
    (KRAID_ETANK, "kraidETank", false, SPECIFIC_ETANKS),
    (CROCOMIRE_ETANK, "crocomireETank", false, SPECIFIC_ETANKS),
    (HI_JUMP_ETANK, "hiJumpETank", false, SPECIFIC_ETANKS),
    (RIDLEY_ETANK, "ridleyETank", false, SPECIFIC_ETANKS),
    (FIREFLEA_ETANK, "firefleaETank", false, SPECIFIC_ETANKS),
    (WRECKED_SHIP_ETANK, "wreckedShipETank", false, SPECIFIC_ETANKS),
    (TATORI_ETANK, "tatoriETank", false, SPECIFIC_ETANKS),
    (BOTWOON_ETANK, "botwoonETank", false, SPECIFIC_ETANKS),
    (RESERVE_TANKS, "reserveTanks", false, ENERGY_UPGRADES),
    (SPECIFIC_RTANKS, "specificRTanks", false, ENERGY_UPGRADES),
    (BRINSTAR_RESERVE, "brinstarReserve", false, SPECIFIC_RTANKS),
    (NORFAIR_RESERVE, "norfairReserve", false, SPECIFIC_RTANKS),
    (WRECKED_SHIP_RESERVE, "wreckedShipReserve", false, SPECIFIC_RTANKS),
    (MARIDIA_RESERVE, "maridiaReserve", false, SPECIFIC_RTANKS),
    (MISC_UPGRADES, "miscUpgrades", false, ROOT),
    (MORPH_BALL, "morphBall", false, MISC_UPGRADES),
    (BOMB, "bomb", false, MISC_UPGRADES),
    (SPRING_BALL, "springBall", false, MISC_UPGRADES),
    (SCREW_ATTACK, "screwAttack", false, MISC_UPGRADES),
    (GRAPPLE, "grapple", false, MISC_UPGRADES),
    (XRAY, "xray", false, MISC_UPGRADES),
    (AREA_TRANSITIONS, "areaTransitions", true, ROOT),
    (MINI_BOSS_ROOMS, "miniBossRooms", false, AREA_TRANSITIONS),
    (BOSS_ROOMS, "bossRooms", false, AREA_TRANSITIONS),
    (ELEVATOR_TRANSITIONS, "elevatorTransitions", false, AREA_TRANSITIONS),
    (CERES_ESCAPE, "ceresEscape", false, AREA_TRANSITIONS),
    (WRECKED_SHIP_ENTRANCE, "wreckedShipEntrance", false, AREA_TRANSITIONS),
    (RED_TOWER_MIDDLE_ENTRANCE, "redTowerMiddleEntrance", false, AREA_TRANSITIONS),
    (RED_TOWER_BOTTOM_ENTRANCE, "redTowerBottomEntrance", false, AREA_TRANSITIONS),
    (KRAIDS_LAIR, "kraidsLair", false, AREA_TRANSITIONS),
    (RISING_TIDE_ENTRANCE, "risingTideEntrance", false, AREA_TRANSITIONS),
    (ATTIC_EXIT, "atticExit", false, AREA_TRANSITIONS),
    (TUBE_BROKEN, "tubeBroken", false, AREA_TRANSITIONS),
    (CAC_EXIT, "cacExit", false, AREA_TRANSITIONS),
    (TOILET, "toilet", false, AREA_TRANSITIONS),
    (KRONIC_BOOST, "kronicBoost", false, AREA_TRANSITIONS),
    (LOWER_NORFAIR_ENTRANCE, "lowerNorfairEntrance", false, AREA_TRANSITIONS),
    (WRITG, "writg", false, AREA_TRANSITIONS),
    (RED_KI_SHAFT, "redKiShaft", false, AREA_TRANSITIONS),
    (METAL_PIRATES, "metalPirates", false, AREA_TRANSITIONS),
    (LOWER_NORFAIR_SPRING_MAZE, "lowerNorfairSpringMaze", false, AREA_TRANSITIONS),
    (LOWER_NORFAIR_EXIT, "lowerNorfairExit", false, AREA_TRANSITIONS),
    (GOLDEN_FOUR, "goldenFour", true, AREA_TRANSITIONS),
    (TOURIAN_ENTRANCE, "tourianEntrance", false, AREA_TRANSITIONS),
    (METROIDS, "metroids", false, AREA_TRANSITIONS),
    (BABY_METROID_ROOM, "babyMetroidRoom", false, AREA_TRANSITIONS),
    (ESCAPE_CLIMB, "escapeClimb", false, AREA_TRANSITIONS),
    (MINI_BOSSES, "miniBosses", false, ROOT),
    (CERES_RIDLEY, "ceresRidley", false, MINI_BOSSES),
    (BOMB_TORIZO, "bombTorizo", false, MINI_BOSSES),
    (SPORE_SPAWN, "sporeSpawn", false, MINI_BOSSES),
    (CROCOMIRE, "crocomire", false, MINI_BOSSES),
    (BOTWOON, "botwoon", false, MINI_BOSSES),
    (GOLDEN_TORIZO, "goldenTorizo", false, MINI_BOSSES),
    (BOSSES, "bosses", true, ROOT),
    (KRAID, "kraid", false, BOSSES),
    (PHANTOON, "phantoon", false, BOSSES),
    (DRAYGON, "draygon", false, BOSSES),
    (RIDLEY, "ridley", true, BOSSES),
    (MB1, "mb1", false, BOSSES),
    (MB2, "mb2", true, BOSSES),
    (MB3, "mb3", false, BOSSES),
    (RTA_FINISH, "rtaFinish", true, ROOT),
    (IGT_FINISH, "igtFinish", false, ROOT),
    (SPORE_SPAWN_RTA_FINISH, "sporeSpawnRTAFinish", false, ROOT),
    (HUNDRED_MISSILE_RTA_FINISH, "hundredMissileRTAFinish", false, ROOT),
];

/// The toggles that `split_on_misc_upgrades` switches on.
pub const PRESET_MISC_UPGRADES: [usize; 7] = [
    MISC_UPGRADES,
    MORPH_BALL,
    BOMB,
    SPRING_BALL,
    SCREW_ATTACK,
    GRAPPLE,
    XRAY,
];

/// The toggles that `split_on_hundo` switches on.
pub const PRESET_HUNDO: [usize; 42] = [
    AMMO_PICKUPS,
    ALL_MISSILES,
    ALL_SUPERS,
    ALL_POWER_BOMBS,
    BEAM_UPGRADES,
    CHARGE_BEAM,
    SPAZER,
    WAVE,
    ICE,
    PLASMA,
    BOOT_UPGRADES,
    HI_JUMP,
    SPACE_JUMP,
    SPEED_BOOSTER,
    ENERGY_UPGRADES,
    ALL_ETANKS,
    RESERVE_TANKS,
    MISC_UPGRADES,
    MORPH_BALL,
    BOMB,
    SPRING_BALL,
    SCREW_ATTACK,
    GRAPPLE,
    XRAY,
    AREA_TRANSITIONS,
    TUBE_BROKEN,
    CERES_ESCAPE,
    BOSSES,
    KRAID,
    PHANTOON,
    DRAYGON,
    RIDLEY,
    MB1,
    MB2,
    MB3,
    MINI_BOSSES,
    CERES_RIDLEY,
    BOMB_TORIZO,
    CROCOMIRE,
    BOTWOON,
    GOLDEN_TORIZO,
    BABY_METROID_ROOM,
];

/// The toggles that `split_on_anypercent` switches on.
pub const PRESET_ANY_PERCENT: [usize; 45] = [
    AMMO_PICKUPS,
    SPECIFIC_MISSILES,
    SPECIFIC_SUPERS,
    WRECKED_SHIP_LEFT_SUPERS,
    FIRST_MISSILE,
    FIRST_SUPER,
    FIRST_POWER_BOMB,
    BRINSTAR_MISSILES,
    NORFAIR_MISSILES,
    CHARGE_MISSILES,
    WAVE_MISSILES,
    BEAM_UPGRADES,
    CHARGE_BEAM,
    WAVE,
    ICE,
    PLASMA,
    BOOT_UPGRADES,
    HI_JUMP,
    SPEED_BOOSTER,
    SPECIFIC_ETANKS,
    ENERGY_UPGRADES,
    TERMINATOR_ETANK,
    HI_JUMP_ETANK,
    BOTWOON_ETANK,
    MISC_UPGRADES,
    MORPH_BALL,
    SPACE_JUMP,
    BOMB,
    AREA_TRANSITIONS,
    TUBE_BROKEN,
    CERES_ESCAPE,
    BOSSES,
    KRAID,
    PHANTOON,
    DRAYGON,
    RIDLEY,
    MB1,
    MB2,
    MB3,
    MINI_BOSSES,
    CERES_RIDLEY,
    BOMB_TORIZO,
    BOTWOON,
    GOLDEN_TORIZO,
    BABY_METROID_ROOM,
];

/// The name of toggle `key`.
pub open spec fn name_of(key: int) -> Seq<char> {
    CATALOGUE[key].1@
}

/// The value that toggle `key` starts with.
pub open spec fn initial_of(key: int) -> bool {
    CATALOGUE[key].2
}

/// The toggle above `key`, if there is one. Only an earlier row can be a parent, so the chain
/// of parents of any toggle ends.
pub open spec fn parent_of(key: int) -> Option<int> {
    if 0 <= key < KEY_COUNT && CATALOGUE[key].3 < key {
        Some(CATALOGUE[key].3 as int)
    } else {
        None
    }
}

/// `key` is the row that carries `name`.
pub open spec fn is_key_of(name: Seq<char>, key: int) -> bool {
    0 <= key < KEY_COUNT && name_of(key) == name
}

/// Some row carries `name`.
pub open spec fn known(name: Seq<char>) -> bool {
    exists|key: int| is_key_of(name, key)
}

/// The key of `name`: the row that carries it.
pub open spec fn key_of(name: Seq<char>) -> int
    recommends
        known(name),
{
    choose|key: int| is_key_of(name, key)
}

/// Every toggle stands in the row that its key says: the keys number the rows.
pub proof fn lemma_keys_number_the_rows()
    ensures
        forall|key: int| 0 <= key < KEY_COUNT ==> (#[trigger] CATALOGUE[key]).0 == key,
{
}

/// In every row the last column is `ROOT` or an earlier row: no row is left without the parent
/// it names.
pub proof fn lemma_parents_stand_above()
    ensures
        forall|key: int|
            0 <= key < KEY_COUNT ==> (#[trigger] CATALOGUE[key]).3 == ROOT || CATALOGUE[key].3
                < key,
{
}

/// The length of a name and five of its letters: enough to tell any two names of the
/// catalogue apart.
spec fn mark(name: Seq<char>) -> (nat, char, char, char, char, char) {
    (
        name.len(),
        letter(name, 0),
        letter(name, 2),
        letter(name, 5),
        letter(name, 8),
        letter(name, 11),
    )
}

/// No two rows have the same mark.
proof fn lemma_marks_are_unique()
    ensures
        forall|a: int, b: int|
            0 <= a < b < KEY_COUNT ==> #[trigger] mark(name_of(a)) != #[trigger] mark(name_of(b)),
{
    reveal_strlit("ammoPickups");
    reveal_strlit("firstMissile");
    reveal_strlit("allMissiles");
    reveal_strlit("specificMissiles");
    reveal_strlit("crateriaMissiles");
    reveal_strlit("oceanBottomMissiles");
    reveal_strlit("oceanTopMissiles");
    reveal_strlit("oceanMiddleMissiles");
    reveal_strlit("moatMissiles");
    reveal_strlit("oldTourianMissiles");
    reveal_strlit("gauntletRightMissiles");
    reveal_strlit("gauntletLeftMissiles");
    reveal_strlit("dentalPlan");
    reveal_strlit("brinstarMissiles");
    reveal_strlit("earlySuperBridgeMissiles");
    reveal_strlit("greenBrinstarReserveMissiles");
    reveal_strlit("greenBrinstarExtraReserveMissiles");
    reveal_strlit("bigPinkTopMissiles");
    reveal_strlit("chargeMissiles");
    reveal_strlit("greenHillsMissiles");
    reveal_strlit("blueBrinstarETankMissiles");
    reveal_strlit("alphaMissiles");
    reveal_strlit("billyMaysMissiles");
    reveal_strlit("butWaitTheresMoreMissiles");
    reveal_strlit("redBrinstarMissiles");
    reveal_strlit("warehouseMissiles");
    reveal_strlit("norfairMissiles");
    reveal_strlit("cathedralMissiles");
    reveal_strlit("crumbleShaftMissiles");
    reveal_strlit("crocomireEscapeMissiles");
    reveal_strlit("hiJumpMissiles");
    reveal_strlit("postCrocomireMissiles");
    reveal_strlit("grappleMissiles");
    reveal_strlit("norfairReserveMissiles");
    reveal_strlit("greenBubblesMissiles");
    reveal_strlit("bubbleMountainMissiles");
    reveal_strlit("speedBoostMissiles");
    reveal_strlit("waveMissiles");
    reveal_strlit("goldTorizoMissiles");
    reveal_strlit("mickeyMouseMissiles");
    reveal_strlit("lowerNorfairSpringMazeMissiles");
    reveal_strlit("threeMusketeersMissiles");
    reveal_strlit("wreckedShipMissiles");
    reveal_strlit("wreckedShipMainShaftMissiles");
    reveal_strlit("bowlingMissiles");
    reveal_strlit("atticMissiles");
    reveal_strlit("maridiaMissiles");
    reveal_strlit("mainStreetMissiles");
    reveal_strlit("mamaTurtleMissiles");
    reveal_strlit("wateringHoleMissiles");
    reveal_strlit("beachMissiles");
    reveal_strlit("leftSandPitMissiles");
    reveal_strlit("rightSandPitMissiles");
    reveal_strlit("aqueductMissiles");
    reveal_strlit("preDraygonMissiles");
    reveal_strlit("firstSuper");
    reveal_strlit("allSupers");
    reveal_strlit("specificSupers");
    reveal_strlit("climbSupers");
    reveal_strlit("sporeSpawnSupers");
    reveal_strlit("earlySupers");
    reveal_strlit("etacoonSupers");
    reveal_strlit("goldTorizoSupers");
    reveal_strlit("wreckedShipLeftSupers");
    reveal_strlit("wreckedShipRightSupers");
    reveal_strlit("crabSupers");
    reveal_strlit("wateringHoleSupers");
    reveal_strlit("aqueductSupers");
    reveal_strlit("firstPowerBomb");
    reveal_strlit("allPowerBombs");
    reveal_strlit("specificBombs");
    reveal_strlit("landingSiteBombs");
    reveal_strlit("etacoonBombs");
    reveal_strlit("pinkBrinstarBombs");
    reveal_strlit("blueBrinstarBombs");
    reveal_strlit("alphaBombs");
    reveal_strlit("betaBombs");
    reveal_strlit("crocomireBombs");
    reveal_strlit("lowerNorfairEscapeBombs");
    reveal_strlit("shameBombs");
    reveal_strlit("rightSandPitBombs");
    reveal_strlit("suitUpgrades");
    reveal_strlit("variaSuit");
    reveal_strlit("gravSuit");
    reveal_strlit("beamUpgrades");
    reveal_strlit("chargeBeam");
    reveal_strlit("spazer");
    reveal_strlit("wave");
    reveal_strlit("ice");
    reveal_strlit("plasma");
    reveal_strlit("bootUpgrades");
    reveal_strlit("hiJump");
    reveal_strlit("spaceJump");
    reveal_strlit("speedBooster");
    reveal_strlit("energyUpgrades");
    reveal_strlit("firstETank");
    reveal_strlit("allETanks");
    reveal_strlit("specificETanks");
    reveal_strlit("gauntletETank");
    reveal_strlit("terminatorETank");
    reveal_strlit("ceilingETank");
    reveal_strlit("etecoonsETank");
    reveal_strlit("waterwayETank");
    reveal_strlit("waveGateETank");
    reveal_strlit("kraidETank");
    reveal_strlit("crocomireETank");
    reveal_strlit("hiJumpETank");
    reveal_strlit("ridleyETank");
    reveal_strlit("firefleaETank");
    reveal_strlit("wreckedShipETank");
    reveal_strlit("tatoriETank");
    reveal_strlit("botwoonETank");
    reveal_strlit("reserveTanks");
    reveal_strlit("specificRTanks");
    reveal_strlit("brinstarReserve");
    reveal_strlit("norfairReserve");
    reveal_strlit("wreckedShipReserve");
    reveal_strlit("maridiaReserve");
    reveal_strlit("miscUpgrades");
    reveal_strlit("morphBall");
    reveal_strlit("bomb");
    reveal_strlit("springBall");
    reveal_strlit("screwAttack");
    reveal_strlit("grapple");
    reveal_strlit("xray");
    reveal_strlit("areaTransitions");
    reveal_strlit("miniBossRooms");
    reveal_strlit("bossRooms");
    reveal_strlit("elevatorTransitions");
    reveal_strlit("ceresEscape");
    reveal_strlit("wreckedShipEntrance");
    reveal_strlit("redTowerMiddleEntrance");
    reveal_strlit("redTowerBottomEntrance");
    reveal_strlit("kraidsLair");
    reveal_strlit("risingTideEntrance");
    reveal_strlit("atticExit");
    reveal_strlit("tubeBroken");
    reveal_strlit("cacExit");
    reveal_strlit("toilet");
    reveal_strlit("kronicBoost");
    reveal_strlit("lowerNorfairEntrance");
    reveal_strlit("writg");
    reveal_strlit("redKiShaft");
    reveal_strlit("metalPirates");
    reveal_strlit("lowerNorfairSpringMaze");
    reveal_strlit("lowerNorfairExit");
    reveal_strlit("goldenFour");
    reveal_strlit("tourianEntrance");
    reveal_strlit("metroids");
    reveal_strlit("babyMetroidRoom");
    reveal_strlit("escapeClimb");
    reveal_strlit("miniBosses");
    reveal_strlit("ceresRidley");
    reveal_strlit("bombTorizo");
    reveal_strlit("sporeSpawn");
    reveal_strlit("crocomire");
    reveal_strlit("botwoon");
    reveal_strlit("goldenTorizo");
    reveal_strlit("bosses");
    reveal_strlit("kraid");
    reveal_strlit("phantoon");
    reveal_strlit("draygon");
    reveal_strlit("ridley");
    reveal_strlit("mb1");
    reveal_strlit("mb2");
    reveal_strlit("mb3");
    reveal_strlit("rtaFinish");
    reveal_strlit("igtFinish");
    reveal_strlit("sporeSpawnRTAFinish");
    reveal_strlit("hundredMissileRTAFinish");
}

/// Two different rows have different marks.
proof fn lemma_marks_differ(a: int, b: int)
    requires
        0 <= a < b < KEY_COUNT,
    ensures
        mark(name_of(a)) != mark(name_of(b)),
{
    lemma_marks_are_unique();
}

/// No two toggles have the same name.
pub proof fn lemma_names_are_unique(a: int, b: int)
    requires
        0 <= a < KEY_COUNT,
        0 <= b < KEY_COUNT,
        a != b,
    ensures
        name_of(a) != name_of(b),
{
    if a < b {
        lemma_marks_differ(a, b);
    } else {
        lemma_marks_differ(b, a);
    }
}

/// A name has one key at most.
pub proof fn lemma_key_is_unique(name: Seq<char>, a: int, b: int)
    requires
        is_key_of(name, a),
        is_key_of(name, b),
    ensures
        a == b,
{
    if a != b {
        lemma_names_are_unique(a, b);
    }
}

/// The key of the name of a toggle is the key of that toggle.
pub proof fn lemma_key_of_name(key: int)
    requires
        0 <= key < KEY_COUNT,
    ensures
        known(name_of(key)),
        key_of(name_of(key)) == key,
{
    assert(is_key_of(name_of(key), key));
    lemma_key_is_unique(name_of(key), key, key_of(name_of(key)));
}

/// The name of toggle `key`.
pub fn name(key: usize) -> (name: &'static str)
    requires
        key < KEY_COUNT,
    ensures
        name@ == name_of(key as int),
{
    CATALOGUE[key].1
}

/// The value that toggle `key` starts with.
pub fn initial(key: usize) -> (value: bool)
    requires
        key < KEY_COUNT,
    ensures
        value == initial_of(key as int),
{
    CATALOGUE[key].2
}

/// The toggle above `key`, if there is one.
pub fn parent(key: usize) -> (parent: Option<usize>)
    requires
        key < KEY_COUNT,
    ensures
        parent_of(key as int) == match parent {
            Some(p) => Some(p as int),
            None => None,
        },
        parent matches Some(p) ==> p < key,
{
    let above = CATALOGUE[key].3;
    if above < key {
        Some(above)
    } else {
        None
    }
}

/// Looks `name` up in the catalogue: its key, or `None` when no toggle has that name.
pub fn find(name: &str) -> (found: Option<usize>)
    ensures
        match found {
            Some(key) => is_key_of(name@, key as int) && key as int == key_of(name@),
            None => !known(name@),
        },
{
    let mut key: usize = 0;
    while key < KEY_COUNT
        invariant
            key <= KEY_COUNT,
            forall|earlier: int| 0 <= earlier < key ==> name_of(earlier) != name@,
        decreases KEY_COUNT - key,
    {
        if same_text(CATALOGUE[key].1, name) {
            proof {
                assert(is_key_of(name@, key as int));
                lemma_key_is_unique(name@, key as int, key_of(name@));
            }
            return Some(key);
        }
        key += 1;
    }
    None
}

} // verus!
