//! Room identifiers, as the game holds them in its room word.
use vstd::prelude::*;

verus! {

pub const LANDING_SITE: u32 = 0x91F8;
pub const CRATERIA_POWER_BOMB_ROOM: u32 = 0x93AA;
pub const WEST_OCEAN: u32 = 0x93FE;
pub const ELEVATOR_TO_MARIDIA: u32 = 0x94CC;
pub const CRATERIA_MOAT: u32 = 0x95FF;
pub const ELEVATOR_TO_CATERPILLAR: u32 = 0x962A;
pub const GAUNTLET_ETANK_ROOM: u32 = 0x965B;
pub const CLIMB: u32 = 0x96BA;
pub const PIT_ROOM: u32 = 0x975C;
pub const ELEVATOR_TO_MORPH_BALL: u32 = 0x97B5;
pub const BOMB_TORIZO: u32 = 0x9804;
pub const TERMINATOR: u32 = 0x990D;
pub const ELEVATOR_TO_GREEN_BRINSTAR: u32 = 0x9938;
pub const GREEN_PIRATE_SHAFT: u32 = 0x99BD;
pub const CRATERIA_SUPERS_ROOM: u32 = 0x99F9;
pub const THE_FINAL_MISSILE: u32 = 0x9A90;
pub const GREEN_BRINSTAR_MAIN_SHAFT: u32 = 0x9AD9;
pub const SPORE_SPAWN_SUPER: u32 = 0x9B5B;
pub const EARLY_SUPERS: u32 = 0x9BC8;
pub const BRINSTAR_RESERVE_ROOM: u32 = 0x9C07;
pub const BIG_PINK: u32 = 0x9D19;
pub const SPORE_SPAWN_KEYHUNTER: u32 = 0x9D9C;
pub const SPORE_SPAWN: u32 = 0x9DC7;
pub const PINK_BRINSTAR_POWER_BOMB_ROOM: u32 = 0x9E11;
pub const GREEN_HILLS: u32 = 0x9E52;
pub const NOOB_BRIDGE: u32 = 0x9FBA;
pub const MORPH_BALL: u32 = 0x9E9F;
pub const BLUE_BRINSTAR_ETANK_ROOM: u32 = 0x9F64;
pub const ETACOON_ETANK_ROOM: u32 = 0xA011;
pub const ETACOON_SUPER_ROOM: u32 = 0xA051;
pub const WATERWAY: u32 = 0xA0D2;
pub const ALPHA_MISSILE_ROOM: u32 = 0xA107;
pub const HOPPER_ETANK_ROOM: u32 = 0xA15B;
pub const BILLY_MAYS: u32 = 0xA1D8;
pub const RED_TOWER: u32 = 0xA253;
pub const X_RAY: u32 = 0xA2CE;
pub const CATERPILLAR: u32 = 0xA322;
pub const BETA_POWER_BOMB_ROOM: u32 = 0xA37C;
pub const ALPHA_POWER_BOMBS_ROOM: u32 = 0xA3AE;
pub const BAT: u32 = 0xA3DD;
pub const SPAZER: u32 = 0xA447;
pub const WAREHOUSE_ETANK_ROOM: u32 = 0xA4B1;
pub const WAREHOUSE_ZEELA: u32 = 0xA471;
pub const WAREHOUSE_KI_HUNTERS: u32 = 0xA4DA;
pub const KRAID_EYE_DOOR: u32 = 0xA56B;
pub const KRAID: u32 = 0xA59F;
pub const STATUES_HALLWAY: u32 = 0xA5ED;
pub const STATUES: u32 = 0xA66A;
pub const WAREHOUSE_ENTRANCE: u32 = 0xA6A1;
pub const VARIA: u32 = 0xA6E2;
pub const CATHEDRAL: u32 = 0xA788;
pub const BUSINESS_CENTER: u32 = 0xA7DE;
pub const ICE_BEAM: u32 = 0xA890;
pub const CRUMBLE_SHAFT: u32 = 0xA8F8;
pub const CROCOMIRE_SPEEDWAY: u32 = 0xA923;
pub const CROCOMIRE: u32 = 0xA98D;
pub const HI_JUMP: u32 = 0xA9E5;
pub const CROCOMIRE_ESCAPE: u32 = 0xAA0E;
pub const HI_JUMP_SHAFT: u32 = 0xAA41;
pub const POST_CROCOMIRE_POWER_BOMB_ROOM: u32 = 0xAADE;
pub const COSINE_ROOM: u32 = 0xAB3B;
pub const PRE_GRAPPLE: u32 = 0xAB8F;
pub const GRAPPLE: u32 = 0xAC2B;
pub const NORFAIR_RESERVE_ROOM: u32 = 0xAC5A;
pub const GREEN_BUBBLES_ROOM: u32 = 0xAC83;
pub const BUBBLE_MOUNTAIN: u32 = 0xACB3;
pub const SPEED_BOOST_HALL: u32 = 0xACF0;
pub const SPEED_BOOSTER: u32 = 0xAD1B;
/// The way out of Lower Norfair, and on the way to the Wave Beam.
pub const SINGLE_CHAMBER: u32 = 0xAD5E;
pub const DOUBLE_CHAMBER: u32 = 0xADAD;
pub const WAVE_BEAM: u32 = 0xADDE;
pub const VOLCANO: u32 = 0xAE32;
pub const KRONIC_BOOST: u32 = 0xAE74;
pub const MAGDOLLITE_TUNNEL: u32 = 0xAEB4;
pub const LOWER_NORFAIR_ELEVATOR: u32 = 0xAF3F;
pub const RISING_TIDE: u32 = 0xAFA3;
pub const SPIKY_ACID_SNAKES: u32 = 0xAFFB;
pub const ACID_STATUE: u32 = 0xB1E5;
/// The first room of Lower Norfair.
pub const MAIN_HALL: u32 = 0xB236;
pub const GOLDEN_TORIZO: u32 = 0xB283;
pub const RIDLEY: u32 = 0xB32E;
pub const LOWER_NORFAIR_FARMING: u32 = 0xB37A;
pub const MICKEY_MOUSE: u32 = 0xB40A;
pub const PILLARS: u32 = 0xB457;
pub const WRITG: u32 = 0xB4AD;
pub const AMPHITHEATRE: u32 = 0xB4E5;
pub const LOWER_NORFAIR_SPRING_MAZE: u32 = 0xB510;
pub const LOWER_NORFAIR_ESCAPE_POWER_BOMB_ROOM: u32 = 0xB55A;
pub const RED_KI_SHAFT: u32 = 0xB585;
pub const WASTELAND: u32 = 0xB5D5;
pub const METAL_PIRATES: u32 = 0xB62B;
pub const THREE_MUSKETEERS: u32 = 0xB656;
pub const RIDLEY_ETANK_ROOM: u32 = 0xB698;
pub const SCREW_ATTACK: u32 = 0xB6C1;
pub const LOWER_NORFAIR_FIREFLEA: u32 = 0xB6EE;
pub const BOWLING: u32 = 0xC98E;
pub const WRECKED_SHIP_ENTRANCE: u32 = 0xCA08;
pub const ATTIC: u32 = 0xCA52;
pub const ATTIC_WORKER_ROBOT_ROOM: u32 = 0xCAAE;
pub const WRECKED_SHIP_MAIN_SHAFT: u32 = 0xCAF6;
pub const WRECKED_SHIP_ETANK_ROOM: u32 = 0xCC27;
/// The basement of the Wrecked Ship.
pub const BASEMENT: u32 = 0xCC6F;
pub const PHANTOON: u32 = 0xCD13;
pub const WRECKED_SHIP_LEFT_SUPER_ROOM: u32 = 0xCDA8;
pub const WRECKED_SHIP_RIGHT_SUPER_ROOM: u32 = 0xCDF1;
pub const GRAVITY: u32 = 0xCE40;
pub const GLASS_TUNNEL: u32 = 0xCEFB;
pub const MAIN_STREET: u32 = 0xCFC9;
pub const MAMA_TURTLE: u32 = 0xD055;
pub const WATERING_HOLE: u32 = 0xD13B;
pub const BEACH: u32 = 0xD1DD;
pub const PLASMA_BEAM: u32 = 0xD2AA;
pub const MARIDIA_ELEVATOR: u32 = 0xD30B;
pub const PLASMA_SPARK: u32 = 0xD340;
pub const TOILET_BOWL: u32 = 0xD408;
pub const OASIS: u32 = 0xD48E;
pub const LEFT_SAND_PIT: u32 = 0xD4EF;
pub const RIGHT_SAND_PIT: u32 = 0xD51E;
pub const AQUEDUCT: u32 = 0xD5A7;
pub const BUTTERFLY_ROOM: u32 = 0xD5EC;
pub const BOTWOON_HALLWAY: u32 = 0xD617;
pub const SPRING_BALL: u32 = 0xD6D0;
pub const PRECIOUS: u32 = 0xD78F;
pub const BOTWOON_ETANK_ROOM: u32 = 0xD7E4;
pub const BOTWOON: u32 = 0xD95E;
pub const SPACE_JUMP: u32 = 0xD9AA;
pub const WEST_CACTUS_ALLEY: u32 = 0xD9FE;
pub const DRAYGON: u32 = 0xDA60;
pub const TOURIAN_ELEVATOR: u32 = 0xDAAE;
pub const METROID_ONE: u32 = 0xDAE1;
pub const METROID_TWO: u32 = 0xDB31;
pub const METROID_THREE: u32 = 0xDB7D;
pub const METROID_FOUR: u32 = 0xDBCD;
pub const DUST_TORIZO: u32 = 0xDC65;
pub const TOURIAN_HOPPER: u32 = 0xDC19;
pub const TOURIAN_EYE_DOOR: u32 = 0xDDC4;
pub const BIG_BOY: u32 = 0xDCB1;
pub const MOTHER_BRAIN: u32 = 0xDD58;
pub const RINKA_SHAFT: u32 = 0xDDF3;
pub const TOURIAN_ESCAPE4: u32 = 0xDEDE;
pub const CERES_ELEVATOR: u32 = 0xDF45;
/// The flat room of Ceres Station, which has no name of its own.
pub const FLAT_ROOM: u32 = 0xE06B;
pub const CERES_RIDLEY: u32 = 0xE0B5;

} // verus!
