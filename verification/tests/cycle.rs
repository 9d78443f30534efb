use supermetroid::cycle::Signals;
use supermetroid::image::ranges;
use supermetroid::settings::Settings;
use supermetroid::state::SNESState;

fn fetched(bytes: &[(u32, u8)]) -> Vec<Vec<u8>> {
    let mut all: Vec<Vec<u8>> = ranges().iter().map(|r| vec![0u8; r.1]).collect();
    for (offset, value) in bytes {
        let mut placed = false;
        for (i, (address, length)) in ranges().iter().enumerate() {
            let start = address - 0xF5_0000;
            if start <= *offset && *offset < start + *length as u32 {
                all[i][(*offset - start) as usize] = *value;
                placed = true;
            }
        }
        assert!(placed, "offset {:#x} is not fetched", offset);
    }
    all
}

#[test]
fn first_pickup_then_reset() {
    let settings = Settings::new();
    let mut state = SNESState::new();
    // Image A: no power bombs, room 100.
    let a = state.cycle(&settings, &fetched(&[(0x09D0, 0), (0x079B, 100)]));
    assert_eq!(a, Signals { start: false, reset: false, split: false });
    // Image B: five power bombs, room 100.
    let b = state.cycle(&settings, &fetched(&[(0x09D0, 5), (0x079B, 100)]));
    assert_eq!(b, Signals { start: false, reset: false, split: true });
    // Image C: no room.
    let c = state.cycle(&settings, &fetched(&[(0x09D0, 5), (0x079B, 0)]));
    assert_eq!(c, Signals { start: false, reset: true, split: false });
}

#[test]
fn the_first_cycle_fires_nothing_from_zero() {
    // Every rule that waits for a rise from nothing would fire here if the first cycle
    // compared the image with the zeros of new watchers.
    let mut settings = Settings::new();
    settings.split_on_hundo();
    settings.split_on_anypercent();
    let mut state = SNESState::new();
    let first = state.cycle(
        &settings,
        &fetched(&[
            (0x09C8, 5),
            (0x09CC, 5),
            (0x09D0, 5),
            (0x079B, 0xDE),
            (0x079C, 0xAD),
            (0x09A8, 0x01),
            (0x0998, 0x1F),
        ]),
    );
    assert_eq!(first, Signals { start: false, reset: false, split: false });
}

#[test]
fn start_is_told_whatever_the_toggles_say() {
    let mut settings = Settings::new();
    for root in settings.roots() {
        assert_eq!(settings.set(&root, false), Ok(()));
    }
    let mut state = SNESState::new();
    state.cycle(&settings, &fetched(&[(0x0998, 0x02), (0x079B, 7)]));
    let begun = state.cycle(&settings, &fetched(&[(0x0998, 0x1F), (0x079B, 7), (0x09D0, 5)]));
    assert_eq!(begun, Signals { start: true, reset: false, split: false });
    let gone = state.cycle(&settings, &fetched(&[(0x0998, 0x1F)]));
    assert_eq!(gone, Signals { start: false, reset: true, split: false });
}

#[test]
fn a_cycle_records_no_latency() {
    let settings = Settings::new();
    let mut state = SNESState::new();
    state.record_latency(12);
    state.cycle(&settings, &fetched(&[]));
    assert_eq!(state.latency().len(), 1);
    assert_eq!(state.latency().sum(), 12);
}
