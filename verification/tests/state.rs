use supermetroid::error::Error;
use supermetroid::image::{covers_ranges, ranges};
use supermetroid::latch::Latch;
use supermetroid::state::SNESState;
use supermetroid::watch;

/// What a fetch brings when the game's memory holds `bytes` at the given offsets and zero
/// elsewhere.
fn fetched(bytes: &[(u32, u8)]) -> Vec<Vec<u8>> {
    let mut all: Vec<Vec<u8>> = ranges().iter().map(|r| vec![0u8; r.1]).collect();
    for (offset, value) in bytes {
        let mut placed = false;
        for (i, (address, length)) in ranges().iter().enumerate() {
            let start = address - 0xF5_0000;
            if start <= *offset && *offset < start + *length as u32 {
                all[i][(*offset - start) as usize] = *value;
                placed = true;
            }
        }
        assert!(placed, "offset {:#x} is not fetched", offset);
    }
    all
}

#[test]
fn the_ranges_to_fetch_are_the_eight_stretches() {
    assert_eq!(
        ranges(),
        vec![
            (0xf5008B, 2),
            (0xf5079B, 3),
            (0xf50998, 1),
            (0xf509A4, 61),
            (0xf50A28, 1),
            (0xf50F8C, 66),
            (0xf5D821, 14),
            (0xf5D870, 20),
        ]
    );
}

#[test]
fn the_watched_values_lie_in_the_fetched_stretches() {
    let state = SNESState::new();
    for row in 0..watch::WATCH_COUNT {
        // The area byte is watched, but no rule reads it and no stretch brings it.
        if row == watch::MAP_IN_USE {
            continue;
        }
        let watcher = state.watch(row);
        let bytes = match watcher.width {
            supermetroid::memory::Width::Byte => 1,
            supermetroid::memory::Width::Word => 2,
        };
        let inside = ranges().iter().any(|(address, length)| {
            let start = address - 0xF5_0000;
            start <= watcher.address && watcher.address + bytes <= start + *length as u32
        });
        assert!(inside, "row {}", row);
    }
}

#[test]
fn covers_ranges_asks_for_every_byte() {
    assert!(covers_ranges(&fetched(&[])));
    assert!(!covers_ranges(&Vec::new()));
    let mut short = fetched(&[]);
    short.pop();
    assert!(!covers_ranges(&short));
    let mut thin = fetched(&[]);
    thin[3].pop();
    assert!(!covers_ranges(&thin));
    let mut wide = fetched(&[]);
    wide[0].push(9);
    wide.push(vec![1, 2, 3]);
    assert!(covers_ranges(&wide));
}

#[test]
fn a_new_state_has_seen_nothing() {
    let state = SNESState::new();
    assert_eq!(state.lookup("roomID"), Ok((0, 0)));
    assert_eq!(state.lookup("gameState"), Ok((0, 0)));
    assert_eq!(state.latches(), (Latch::Disarmed, Latch::Disarmed));
    assert_eq!(state.latency().len(), 0);
    assert!(!state.start());
    assert!(!state.reset());
}

#[test]
fn lookup_of_an_unknown_name_is_refused() {
    let state = SNESState::new();
    assert_eq!(state.lookup("roomId"), Err(Error::UnknownKey));
    assert_eq!(state.lookup(""), Err(Error::UnknownKey));
    assert_eq!(state.lookup("firstMissile"), Err(Error::UnknownKey));
}

#[test]
fn the_first_update_advances_every_watcher_twice() {
    let mut state = SNESState::new();
    state.store(&fetched(&[
        (0x079B, 0x64),
        (0x079C, 0x01),
        (0x09C8, 5),
        (0x0998, 0x08),
        (0xD883, 0x80),
        (0x008B, 0x34),
        (0x008C, 0x12),
    ]));
    state.update();
    assert_eq!(state.lookup("roomID"), Ok((0x0164, 0x0164)));
    assert_eq!(state.lookup("maxMissiles"), Ok((5, 5)));
    assert_eq!(state.lookup("gameState"), Ok((8, 8)));
    assert_eq!(state.lookup("maridiaItems3"), Ok((0x80, 0x80)));
    assert_eq!(state.lookup("controller"), Ok((0x1234, 0x1234)));
    assert_eq!(state.lookup("maxSupers"), Ok((0, 0)));
    for row in 0..watch::WATCH_COUNT {
        let watcher = state.watch(row);
        assert_eq!(watcher.old, watcher.current, "row {}", row);
    }
}

#[test]
fn later_updates_advance_once() {
    let mut state = SNESState::new();
    state.store(&fetched(&[(0x09C8, 5)]));
    state.update();
    state.store(&fetched(&[(0x09C8, 10)]));
    state.update();
    assert_eq!(state.lookup("maxMissiles"), Ok((5, 10)));
    state.update();
    assert_eq!(state.lookup("maxMissiles"), Ok((10, 10)));
    state.store(&fetched(&[(0x09C8, 15)]));
    state.update();
    assert_eq!(state.lookup("maxMissiles"), Ok((10, 15)));
}

#[test]
fn store_overwrites_the_stretches_and_nothing_else() {
    let mut state = SNESState::new();
    state.store(&fetched(&[(0x079B, 1), (0x079D, 3), (0xD870, 0xAA)]));
    state.update();
    assert_eq!(state.lookup("roomID"), Ok((1, 1)));
    assert_eq!(state.lookup("crateriaItems"), Ok((0xAA, 0xAA)));
    // A second fetch of zeros clears what the first brought.
    state.store(&fetched(&[]));
    state.update();
    assert_eq!(state.lookup("roomID"), Ok((1, 0)));
    assert_eq!(state.lookup("crateriaItems"), Ok((0xAA, 0)));
}

#[test]
fn store_leaves_out_bytes_beyond_a_stretch() {
    let mut state = SNESState::new();
    let mut wide = fetched(&[(0x0998, 7)]);
    // The stretch of the game state is one byte long; a second byte would fall on 0x0999.
    wide[2].push(0xEE);
    wide.push(vec![0xEE; 4]);
    state.store(&wide);
    state.update();
    assert_eq!(state.lookup("gameState"), Ok((7, 7)));
}

#[test]
fn start_fires_on_the_three_transitions_only() {
    let cases: [(u8, u8, bool); 8] = [
        (0x02, 0x1F, true),
        (0x1E, 0x1F, true),
        (0x05, 0x06, true),
        (0x1F, 0x1F, false),
        (0x02, 0x06, false),
        (0x05, 0x1F, false),
        (0x06, 0x05, false),
        (0x00, 0x1F, false),
    ];
    for (before, after, expected) in cases {
        let mut state = SNESState::new();
        state.store(&fetched(&[(0x0998, before)]));
        state.update();
        assert!(!state.start());
        state.store(&fetched(&[(0x0998, after)]));
        state.update();
        assert_eq!(state.start(), expected, "{:#x} -> {:#x}", before, after);
    }
}

#[test]
fn reset_fires_when_the_room_goes_to_zero() {
    let mut state = SNESState::new();
    state.store(&fetched(&[(0x079B, 100)]));
    state.update();
    assert!(!state.reset());
    state.store(&fetched(&[(0x079B, 100)]));
    state.update();
    assert!(!state.reset());
    state.store(&fetched(&[]));
    state.update();
    assert!(state.reset());
    // Zero to zero is no reset.
    state.update();
    assert_eq!(state.lookup("roomID"), Ok((0, 0)));
    assert!(!state.reset());
    // Zero to a room is none either.
    state.store(&fetched(&[(0x079C, 0x91)]));
    state.update();
    assert_eq!(state.lookup("roomID"), Ok((0, 0x9100)));
    assert!(!state.reset());
    // A room to another room is none.
    state.store(&fetched(&[(0x079B, 1)]));
    state.update();
    assert!(!state.reset());
}

#[test]
fn record_latency_fills_the_window() {
    let mut state = SNESState::new();
    for sample in [10, 20, 30] {
        state.record_latency(sample);
    }
    assert_eq!(state.latency().len(), 3);
    assert_eq!(state.latency().mean(), Some(20));
    for sample in 0..1000u32 {
        state.record_latency(sample);
    }
    assert_eq!(state.latency().len(), 1000);
    assert_eq!(state.latency().sum(), 499_500);
    assert_eq!(state.lookup("roomID"), Ok((0, 0)));
}

#[test]
fn a_cloned_state_goes_its_own_way() {
    let mut state = SNESState::new();
    state.store(&fetched(&[(0x09C8, 5)]));
    state.update();
    state.record_latency(4);
    let mut copy = state.clone();
    state.store(&fetched(&[(0x09C8, 10)]));
    state.update();
    assert_eq!(copy.lookup("maxMissiles"), Ok((5, 5)));
    assert_eq!(copy.latency().sum(), 4);
    // The copy is primed too: its next update advances once.
    copy.store(&fetched(&[(0x09C8, 6)]));
    copy.update();
    assert_eq!(copy.lookup("maxMissiles"), Ok((5, 6)));
}
