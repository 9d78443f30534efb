//! The places of the game's memory that are watched: one row for each, with its number, its
//! name, its offset in the memory image and its width. A watched value is named in the rest of
//! the crate by the number of its row.
use crate::memory::Width;
use crate::text::{letter, same_text};
use vstd::prelude::*;

verus! {

/// The number of watched values.
pub const WATCH_COUNT: usize = 44;

/// The size of the memory image in bytes.
pub const IMAGE_LEN: usize = 0x10000;

pub const CONTROLLER: usize = 0;
pub const ROOM_ID: usize = 1;
pub const ENEMY_HP: usize = 2;
pub const SHIP_AI: usize = 3;
pub const MOTHER_BRAIN_HP: usize = 4;
pub const MAP_IN_USE: usize = 5;
pub const GAME_STATE: usize = 6;
pub const UNLOCKED_EQUIPS2: usize = 7;
pub const UNLOCKED_EQUIPS: usize = 8;
pub const UNLOCKED_BEAMS: usize = 9;
pub const UNLOCKED_CHARGE: usize = 10;
pub const MAX_ENERGY: usize = 11;
pub const MAX_MISSILES: usize = 12;
pub const MAX_SUPERS: usize = 13;
pub const MAX_POWER_BOMBS: usize = 14;
pub const MAX_RESERVE: usize = 15;
pub const IGT_FRAMES: usize = 16;
pub const IGT_SECONDS: usize = 17;
pub const IGT_MINUTES: usize = 18;
pub const IGT_HOURS: usize = 19;
pub const PLAYER_STATE: usize = 20;
pub const EVENT_FLAGS: usize = 21;
pub const CRATERIA_BOSSES: usize = 22;
pub const BRINSTAR_BOSSES: usize = 23;
pub const NORFAIR_BOSSES: usize = 24;
pub const WRECKED_SHIP_BOSSES: usize = 25;
pub const MARIDIA_BOSSES: usize = 26;
pub const TOURIAN_BOSSES: usize = 27;
pub const CERES_BOSSES: usize = 28;
pub const CRATERIA_ITEMS: usize = 29;
pub const BRINTERIA_ITEMS: usize = 30;
pub const BRINSTAR_ITEMS2: usize = 31;
pub const BRINSTAR_ITEMS3: usize = 32;
pub const BRINSTAR_ITEMS4: usize = 33;
pub const BRINSTAR_ITEMS5: usize = 34;
pub const NORFAIR_ITEMS1: usize = 35;
pub const NORFAIR_ITEMS2: usize = 36;
pub const NORFAIR_ITEMS3: usize = 37;
pub const NORFAIR_ITEMS4: usize = 38;
pub const NORFAIR_ITEMS5: usize = 39;
pub const WRECKED_SHIP_ITEMS: usize = 40;
pub const MARIDIA_ITEMS1: usize = 41;
pub const MARIDIA_ITEMS2: usize = 42;
pub const MARIDIA_ITEMS3: usize = 43;

/// Row, name, offset in the memory image and width of each watched value.
pub const WATCHED: [(usize, &'static str, u32, Width); 44] = [
    (CONTROLLER, "controller", 0x008B, Width::Word),
    (ROOM_ID, "roomID", 0x079B, Width::Word),
    (ENEMY_HP, "enemyHP", 0x0F8C, Width::Word),
    (SHIP_AI, "shipAI", 0x0FB2, Width::Word),
    (MOTHER_BRAIN_HP, "motherBrainHP", 0x0FCC, Width::Word),
    (MAP_IN_USE, "mapInUse", 0x079F, Width::Byte),
    (GAME_STATE, "gameState", 0x0998, Width::Byte),
    (UNLOCKED_EQUIPS2, "unlockedEquips2", 0x09A4, Width::Byte),
    (UNLOCKED_EQUIPS, "unlockedEquips", 0x09A5, Width::Byte),
    (UNLOCKED_BEAMS, "unlockedBeams", 0x09A8, Width::Byte),
    (UNLOCKED_CHARGE, "unlockedCharge", 0x09A9, Width::Byte),
    (MAX_ENERGY, "maxEnergy", 0x09C4, Width::Word),
    (MAX_MISSILES, "maxMissiles", 0x09C8, Width::Byte),
    (MAX_SUPERS, "maxSupers", 0x09CC, Width::Byte),
    (MAX_POWER_BOMBS, "maxPowerBombs", 0x09D0, Width::Byte),
    (MAX_RESERVE, "maxReserve", 0x09D4, Width::Word),
    (IGT_FRAMES, "igtFrames", 0x09DA, Width::Byte),
    (IGT_SECONDS, "igtSeconds", 0x09DC, Width::Byte),
    (IGT_MINUTES, "igtMinutes", 0x09DE, Width::Byte),
    (IGT_HOURS, "igtHours", 0x09E0, Width::Byte),
    (PLAYER_STATE, "playerState", 0x0A28, Width::Byte),
    (EVENT_FLAGS, "eventFlags", 0xD821, Width::Byte),
    (CRATERIA_BOSSES, "crateriaBosses", 0xD828, Width::Byte),
    (BRINSTAR_BOSSES, "brinstarBosses", 0xD829, Width::Byte),
    (NORFAIR_BOSSES, "norfairBosses", 0xD82A, Width::Byte),
    (WRECKED_SHIP_BOSSES, "wreckedShipBosses", 0xD82B, Width::Byte),
    (MARIDIA_BOSSES, "maridiaBosses", 0xD82C, Width::Byte),
    (TOURIAN_BOSSES, "tourianBosses", 0xD82D, Width::Byte),
    (CERES_BOSSES, "ceresBosses", 0xD82E, Width::Byte),
    (CRATERIA_ITEMS, "crateriaItems", 0xD870, Width::Byte),
    (BRINTERIA_ITEMS, "brinteriaItems", 0xD871, Width::Byte),
    (BRINSTAR_ITEMS2, "brinstarItems2", 0xD872, Width::Byte),
    (BRINSTAR_ITEMS3, "brinstarItems3", 0xD873, Width::Byte),
    (BRINSTAR_ITEMS4, "brinstarItems4", 0xD874, Width::Byte),
    (BRINSTAR_ITEMS5, "brinstarItems5", 0xD875, Width::Byte),
    (NORFAIR_ITEMS1, "norfairItems1", 0xD876, Width::Byte),
    (NORFAIR_ITEMS2, "norfairItems2", 0xD877, Width::Byte),
    (NORFAIR_ITEMS3, "norfairItems3", 0xD878, Width::Byte),
    (NORFAIR_ITEMS4, "norfairItems4", 0xD879, Width::Byte),
    (NORFAIR_ITEMS5, "norfairItems5", 0xD87A, Width::Byte),
    (WRECKED_SHIP_ITEMS, "wreckedShipItems", 0xD880, Width::Byte),
    (MARIDIA_ITEMS1, "maridiaItems1", 0xD881, Width::Byte),
    (MARIDIA_ITEMS2, "maridiaItems2", 0xD882, Width::Byte),
    (MARIDIA_ITEMS3, "maridiaItems3", 0xD883, Width::Byte),
];

/// The name of watched value `watch`.
pub open spec fn watch_name_of(watch: int) -> Seq<char> {
    WATCHED[watch].1@
}

/// The offset of watched value `watch` in the memory image.
pub open spec fn address_of(watch: int) -> u32 {
    WATCHED[watch].2
}

/// The width of watched value `watch`.
pub open spec fn width_of(watch: int) -> Width {
    WATCHED[watch].3
}

/// `watch` is the row that carries `name`.
pub open spec fn is_watch_of(name: Seq<char>, watch: int) -> bool {
    0 <= watch < WATCH_COUNT && watch_name_of(watch) == name
}

/// Some row carries `name`.
pub open spec fn watched(name: Seq<char>) -> bool {
    exists|watch: int| is_watch_of(name, watch)
}

/// The row of `name`.
pub open spec fn watch_of(name: Seq<char>) -> int
    recommends
        watched(name),
{
    choose|watch: int| is_watch_of(name, watch)
}

/// Every watched value stands in the row that its number says.
pub proof fn lemma_rows_are_numbered()
    ensures
        forall|watch: int| 0 <= watch < WATCH_COUNT ==> (#[trigger] WATCHED[watch]).0 == watch,
{
}

/// Every watched value lies within the memory image, words with both their bytes.
pub proof fn lemma_watched_within_image()
    ensures
        forall|watch: int|
            0 <= watch < WATCH_COUNT ==> (#[trigger] WATCHED[watch]).2 + 1 < IMAGE_LEN,
{
}

/// The length of a name and three of its letters: enough to tell any two names of watched
/// values apart.
spec fn mark(name: Seq<char>) -> (nat, char, char, char) {
    (name.len(), letter(name, 3), letter(name, 12), letter(name, 13))
}

/// No two rows have the same mark.
proof fn lemma_marks_are_unique()
    ensures
        forall|a: int, b: int|
            0 <= a < b < WATCH_COUNT ==> #[trigger] mark(watch_name_of(a)) != #[trigger] mark(
                watch_name_of(b),
            ),
{
    reveal_strlit("controller");
    reveal_strlit("roomID");
    reveal_strlit("enemyHP");
    reveal_strlit("shipAI");
    reveal_strlit("motherBrainHP");
    reveal_strlit("mapInUse");
    reveal_strlit("gameState");
    reveal_strlit("unlockedEquips2");
    reveal_strlit("unlockedEquips");
    reveal_strlit("unlockedBeams");
    reveal_strlit("unlockedCharge");
    reveal_strlit("maxEnergy");
    reveal_strlit("maxMissiles");
    reveal_strlit("maxSupers");
    reveal_strlit("maxPowerBombs");
    reveal_strlit("maxReserve");
    reveal_strlit("igtFrames");
    reveal_strlit("igtSeconds");
    reveal_strlit("igtMinutes");
    reveal_strlit("igtHours");
    reveal_strlit("playerState");
    reveal_strlit("eventFlags");
    reveal_strlit("crateriaBosses");
    reveal_strlit("brinstarBosses");
    reveal_strlit("norfairBosses");
    reveal_strlit("wreckedShipBosses");
    reveal_strlit("maridiaBosses");
    reveal_strlit("tourianBosses");
    reveal_strlit("ceresBosses");
    reveal_strlit("crateriaItems");
    reveal_strlit("brinteriaItems");
    reveal_strlit("brinstarItems2");
    reveal_strlit("brinstarItems3");
    reveal_strlit("brinstarItems4");
    reveal_strlit("brinstarItems5");
    reveal_strlit("norfairItems1");
    reveal_strlit("norfairItems2");
    reveal_strlit("norfairItems3");
    reveal_strlit("norfairItems4");
    reveal_strlit("norfairItems5");
    reveal_strlit("wreckedShipItems");
    reveal_strlit("maridiaItems1");
    reveal_strlit("maridiaItems2");
    reveal_strlit("maridiaItems3");
}

/// Two different rows have different marks.
proof fn lemma_marks_differ(a: int, b: int)
    requires
        0 <= a < b < WATCH_COUNT,
    ensures
        mark(watch_name_of(a)) != mark(watch_name_of(b)),
{
    lemma_marks_are_unique();
}

/// No two watched values have the same name.
pub proof fn lemma_watch_names_are_unique(a: int, b: int)
    requires
        0 <= a < WATCH_COUNT,
        0 <= b < WATCH_COUNT,
        a != b,
    ensures
        watch_name_of(a) != watch_name_of(b),
{
    if a < b {
        lemma_marks_differ(a, b);
    } else {
        lemma_marks_differ(b, a);
    }
}

/// A name has one row at most.
pub proof fn lemma_watch_is_unique(name: Seq<char>, a: int, b: int)
    requires
        is_watch_of(name, a),
        is_watch_of(name, b),
    ensures
        a == b,
{
    if a != b {
        lemma_watch_names_are_unique(a, b);
    }
}

/// The row of the name of a watched value is the row of that value.
pub proof fn lemma_watch_of_name(watch: int)
    requires
        0 <= watch < WATCH_COUNT,
    ensures
        watched(watch_name_of(watch)),
        watch_of(watch_name_of(watch)) == watch,
{
    assert(is_watch_of(watch_name_of(watch), watch));
    lemma_watch_is_unique(watch_name_of(watch), watch, watch_of(watch_name_of(watch)));
}

/// Looks `name` up among the watched values: its row, or `None` when no value has that name.
pub fn find_watch(name: &str) -> (found: Option<usize>)
    ensures
        match found {
            Some(watch) => is_watch_of(name@, watch as int) && watch as int == watch_of(name@),
            None => !watched(name@),
        },
{
    let mut watch: usize = 0;
    while watch < WATCH_COUNT
        invariant
            watch <= WATCH_COUNT,
            forall|earlier: int| 0 <= earlier < watch ==> watch_name_of(earlier) != name@,
        decreases WATCH_COUNT - watch,
    {
        if same_text(WATCHED[watch].1, name) {
            proof {
                assert(is_watch_of(name@, watch as int));
                lemma_watch_is_unique(name@, watch as int, watch_of(name@));
            }
            return Some(watch);
        }
        watch += 1;
    }
    None
}

} // verus!
