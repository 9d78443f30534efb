//! The memory image: the stretches of the game's memory that are fetched for each cycle, and
//! where their bytes go.
use crate::watch::IMAGE_LEN;
use vstd::prelude::*;

verus! {

/// The address, as the device counts, of the first byte of the memory image.
pub const WRAM_BASE: u32 = 0xF5_0000;

/// The number of stretches that are fetched.
pub const RANGE_COUNT: usize = 8;

/// Address and length of each stretch to fetch. Together they hold every watched value that a
/// rule reads.
pub const RANGES: [(u32, usize); 8] = [
    (0xF5_008B, 2),
    (0xF5_079B, 3),
    (0xF5_0998, 1),
    (0xF5_09A4, 61),
    (0xF5_0A28, 1),
    (0xF5_0F8C, 66),
    (0xF5_D821, 14),
    (0xF5_D870, 20),
];

/// Where stretch `range` begins in the memory image.
pub open spec fn offset_of(range: int) -> int {
    RANGES[range].0 - WRAM_BASE
}

/// The number of bytes of stretch `range`.
pub open spec fn length_of(range: int) -> int {
    RANGES[range].1 as int
}

/// `fetched` holds, in the order of `RANGES`, at least the bytes of every stretch.
pub open spec fn covers(fetched: Seq<Seq<u8>>) -> bool {
    &&& fetched.len() >= RANGE_COUNT
    &&& forall|range: int|
        0 <= range < RANGE_COUNT ==> (#[trigger] fetched[range]).len() >= length_of(range)
}

/// `image` with `bytes` written over it from `offset` on.
pub open spec fn overlaid(image: Seq<u8>, offset: int, bytes: Seq<u8>) -> Seq<u8> {
    Seq::new(
        image.len(),
        |at: int|
            if offset <= at < offset + bytes.len() {
                bytes[at - offset]
            } else {
                image[at]
            },
    )
}

/// `image` after the first `upto` stretches of `fetched` have been written to their places.
pub open spec fn stored(image: Seq<u8>, fetched: Seq<Seq<u8>>, upto: int) -> Seq<u8>
    decreases upto,
{
    if upto <= 0 {
        image
    } else {
        overlaid(
            stored(image, fetched, upto - 1),
            offset_of(upto - 1),
            fetched[upto - 1].take(length_of(upto - 1)),
        )
    }
}

/// Every stretch lies within the memory image.
pub proof fn lemma_ranges_within_image()
    ensures
        forall|range: int|
            0 <= range < RANGE_COUNT ==> (#[trigger] RANGES[range]).0 >= WRAM_BASE
                && RANGES[range].0 - WRAM_BASE + RANGES[range].1 <= IMAGE_LEN,
{
}

/// No two stretches share a byte, so each byte of the image comes from one stretch at most.
pub proof fn lemma_ranges_apart()
    ensures
        forall|a: int, b: int|
            0 <= a < b < RANGE_COUNT ==> (#[trigger] RANGES[a]).0 + RANGES[a].1
                <= (#[trigger] RANGES[b]).0,
{
}

/// The stretches to ask the device for, each with its address and its length.
pub fn ranges() -> (list: Vec<(u32, usize)>)
    ensures
        list@ == RANGES@,
{
    let mut list: Vec<(u32, usize)> = Vec::new();
    let mut range: usize = 0;
    while range < RANGE_COUNT
        invariant
            range <= RANGE_COUNT,
            list@ == RANGES@.take(range as int),
        decreases RANGE_COUNT - range,
    {
        list.push(RANGES[range]);
        assert(list@ =~= RANGES@.take(range + 1));
        range += 1;
    }
    assert(RANGES@.take(RANGE_COUNT as int) =~= RANGES@);
    list
}

/// Whether `fetched` holds enough bytes for every stretch.
pub fn covers_ranges(fetched: &Vec<Vec<u8>>) -> (enough: bool)
    ensures
        enough == covers(fetched.deep_view()),
{
    if fetched.len() < RANGE_COUNT {
        return false;
    }
    let mut range: usize = 0;
    while range < RANGE_COUNT
        invariant
            range <= RANGE_COUNT,
            fetched@.len() >= RANGE_COUNT,
            forall|r: int|
                0 <= r < range ==> (#[trigger] fetched.deep_view()[r]).len() >= length_of(r),
        decreases RANGE_COUNT - range,
    {
        if fetched[range].len() < RANGES[range].1 {
            assert(fetched.deep_view()[range as int].len() < length_of(range as int));
            return false;
        }
        assert(fetched.deep_view()[range as int].len() >= length_of(range as int));
        range += 1;
    }
    true
}

} // verus!
