//! Values of the game's state byte and of its area byte, the bits of its flag bytes and
//! Mother Brain's health.
use vstd::prelude::*;

verus! {

// The game state byte.
/// The options screen of a file that has no game yet.
pub const STATE_OPTIONS: u32 = 0x02;
/// The selection of where to load a saved game.
pub const STATE_FILE_SELECT: u32 = 0x05;
/// A saved game is loading.
pub const STATE_LOADING: u32 = 0x06;
pub const STATE_NORMAL_GAMEPLAY: u32 = 0x08;
pub const STATE_DOOR_TRANSITION: u32 = 0x0B;
/// The intro plays.
pub const STATE_INTRO: u32 = 0x1E;
/// A new game is set up.
pub const STATE_NEW_GAME: u32 = 0x1F;
pub const STATE_START_OF_CERES_CUTSCENE: u32 = 0x20;
/// Held for a moment, while the screen is black after the ship has faded out.
pub const STATE_PRE_END_CUTSCENE: u32 = 0x26;
pub const STATE_END_CUTSCENE: u32 = 0x27;

// The area byte.
pub const AREA_CRATERIA: u32 = 0x00;
pub const AREA_BRINSTAR: u32 = 0x01;
pub const AREA_NORFAIR: u32 = 0x02;
pub const AREA_WRECKED_SHIP: u32 = 0x03;
pub const AREA_MARIDIA: u32 = 0x04;
pub const AREA_TOURIAN: u32 = 0x05;
pub const AREA_CERES: u32 = 0x06;

// Bits of the two equipment bytes, the beam byte and the charge byte.
pub const UNLOCK_VARIA_SUIT: u32 = 0x01;
pub const UNLOCK_SPRING_BALL: u32 = 0x02;
pub const UNLOCK_MORPH_BALL: u32 = 0x04;
pub const UNLOCK_SCREW_ATTACK: u32 = 0x08;
pub const UNLOCK_GRAV_SUIT: u32 = 0x20;
pub const UNLOCK_HI_JUMP: u32 = 0x01;
pub const UNLOCK_SPACE_JUMP: u32 = 0x02;
pub const UNLOCK_BOMB: u32 = 0x10;
pub const UNLOCK_SPEED_BOOSTER: u32 = 0x20;
pub const UNLOCK_GRAPPLE: u32 = 0x40;
pub const UNLOCK_XRAY: u32 = 0x80;
pub const UNLOCK_WAVE: u32 = 0x01;
pub const UNLOCK_ICE: u32 = 0x02;
pub const UNLOCK_SPAZER: u32 = 0x04;
pub const UNLOCK_PLASMA: u32 = 0x08;
pub const UNLOCK_CHARGE_BEAM: u32 = 0x10;

// Bits of the event byte.
pub const EVENT_ZEBES_ABLAZE: u32 = 0x40;
pub const EVENT_TUBE_BROKEN: u32 = 0x08;

// Bits of the boss bytes, one byte for each area.
pub const BOSS_BOMB_TORIZO: u32 = 0x04;
pub const BOSS_SPORE_SPAWN: u32 = 0x02;
pub const BOSS_KRAID: u32 = 0x01;
pub const BOSS_RIDLEY: u32 = 0x01;
pub const BOSS_CROCOMIRE: u32 = 0x02;
pub const BOSS_GOLDEN_TORIZO: u32 = 0x04;
pub const BOSS_PHANTOON: u32 = 0x01;
pub const BOSS_DRAYGON: u32 = 0x01;
pub const BOSS_BOTWOON: u32 = 0x02;
pub const BOSS_MOTHER_BRAIN: u32 = 0x02;
pub const BOSS_CERES_RIDLEY: u32 = 0x01;

// Mother Brain's health at the start of each phase.
pub const MOTHER_BRAIN_PHASE1: u32 = 0x0BB8;
pub const MOTHER_BRAIN_PHASE2: u32 = 0x4650;
pub const MOTHER_BRAIN_PHASE3: u32 = 0x8CA0;

/// The ship's AI word once the ship has taken off at the end of the escape.
pub const SHIP_AI_TAKEOFF: u32 = 0xAA4F;

} // verus!
