//! One cycle: what was fetched goes into the memory image, the watchers advance over it, and
//! the rules say what the cycle brought.
use crate::image::{covers, stored, RANGE_COUNT};
use crate::rules::{events, hundredth_missile_after, split, spore_spawn_super_after};
use crate::settings::Settings;
use crate::state::{run_resets, run_starts, updated, SNESState};
use crate::watch::{GAME_STATE, ROOM_ID};
use vstd::prelude::*;

verus! {

/// What a cycle tells the timer.
#[derive(Debug, Copy, Clone, PartialEq, Eq, Structural)]
pub struct Signals {
    /// A run begins.
    pub start: bool,
    /// The run is given up.
    pub reset: bool,
    /// A segment of the run ends.
    pub split: bool,
}

impl SNESState {
    /// Runs one cycle on what was fetched for it. `start` and `reset` do not depend on the
    /// toggles, and are no part of `split`.
    pub fn cycle(&mut self, settings: &Settings, fetched: &Vec<Vec<u8>>) -> (signals: Signals)
        requires
            covers(fetched.deep_view()),
        ensures
            final(self).image() == stored(
                old(self).image(),
                fetched.deep_view(),
                RANGE_COUNT as int,
            ),
            final(self).watchers() == updated(
                old(self).watchers(),
                final(self).image(),
                old(self).primed(),
            ),
            final(self).primed(),
            signals.start == run_starts(final(self).watchers()[GAME_STATE as int]),
            signals.reset == run_resets(final(self).watchers()[ROOM_ID as int]),
            signals.split == events(
                settings@,
                final(self).watchers(),
                old(self).hundredth_missile(),
                old(self).spore_spawn_super(),
            ).splits(),
            final(self).hundredth_missile() == hundredth_missile_after(
                settings@,
                final(self).watchers(),
                old(self).hundredth_missile(),
            ),
            final(self).spore_spawn_super() == spore_spawn_super_after(
                settings@,
                final(self).watchers(),
                old(self).spore_spawn_super(),
            ),
            final(self).samples() == old(self).samples(),
    {
        self.store(fetched);
        self.update();
        let start = self.start();
        let reset = self.reset();
        let split = split(settings, self);
        Signals { start: start, reset: reset, split: split }
    }
}

} // verus!
