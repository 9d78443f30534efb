//! What is known of the game: the memory image, the watched values read from it, the latches
//! of the two-cycle conditions and the latency window.
use crate::error::Error;
use crate::game::{STATE_FILE_SELECT, STATE_INTRO, STATE_LOADING, STATE_NEW_GAME, STATE_OPTIONS};
use crate::image::{covers, overlaid, stored, RANGES, RANGE_COUNT, WRAM_BASE};
use crate::latch::Latch;
use crate::latency::{newest, LatencyWindow, WINDOW};
use crate::memory::{reading, MemoryWatcher};
use crate::watch::{
    address_of, find_watch, watch_of, watched, width_of, GAME_STATE, IMAGE_LEN, ROOM_ID, WATCHED,
    WATCH_COUNT,
};
use vstd::prelude::*;

verus! {

/// Every watcher after one advance over `image`.
pub open spec fn advance_all(watchers: Seq<MemoryWatcher>, image: Seq<u8>) -> Seq<MemoryWatcher> {
    Seq::new(watchers.len(), |watch: int| watchers[watch].advanced(image))
}

/// The watchers after an update over `image`: advanced once, or twice if no update was made
/// before.
pub open spec fn updated(watchers: Seq<MemoryWatcher>, image: Seq<u8>, primed: bool) -> Seq<
    MemoryWatcher,
> {
    if primed {
        advance_all(watchers, image)
    } else {
        advance_all(advance_all(watchers, image), image)
    }
}

/// The watchers as `new` makes them: one for each row of `WATCHED`, untouched by any advance.
pub open spec fn fresh_watchers() -> Seq<MemoryWatcher> {
    Seq::new(
        WATCH_COUNT as nat,
        |watch: int| MemoryWatcher::fresh(address_of(watch), width_of(watch)),
    )
}

/// Whether the game state byte shows that a run begins: the game leaves the options for a new
/// game, the intro ends into a new game, or a saved game is loaded from the file selection.
pub open spec fn run_starts(state: MemoryWatcher) -> bool {
    ||| state.old == STATE_OPTIONS && state.current == STATE_NEW_GAME
    ||| state.old == STATE_INTRO && state.current == STATE_NEW_GAME
    ||| state.old == STATE_FILE_SELECT && state.current == STATE_LOADING
}

/// Whether the room word shows that the game went back to its title: it held a room, and
/// holds none now.
pub open spec fn run_resets(room: MemoryWatcher) -> bool {
    room.old != 0 && room.current == 0
}

/// The memory image with the values watched in it, and what is kept from cycle to cycle.
pub struct SNESState {
    vars: Vec<MemoryWatcher>,
    picked_up_hundredth_missile: Latch,
    picked_up_spore_spawn_super: Latch,
    latency_samples: LatencyWindow,
    data: Vec<u8>,
    // A watcher holds two readings only after two advances, so the first update advances
    // every watcher twice.
    do_extra_update: bool,
}

impl Clone for SNESState {
    /// A state of its own that holds the same.
    fn clone(&self) -> (copy: SNESState)
        ensures
            copy.watchers() == self.watchers(),
            copy.image() == self.image(),
            copy.primed() == self.primed(),
            copy.hundredth_missile() == self.hundredth_missile(),
            copy.spore_spawn_super() == self.spore_spawn_super(),
            copy.samples() == self.samples(),
    {
        proof {
            use_type_invariant(self);
        }
        let vars = self.vars.clone();
        let data = self.data.clone();
        assert(vars@ =~= self.vars@);
        assert(data@ =~= self.data@);
        SNESState {
            vars: vars,
            picked_up_hundredth_missile: self.picked_up_hundredth_missile,
            picked_up_spore_spawn_super: self.picked_up_spore_spawn_super,
            latency_samples: self.latency_samples.clone(),
            data: data,
            do_extra_update: self.do_extra_update,
        }
    }
}

impl SNESState {
    #[verifier::type_invariant]
    spec fn well_formed(self) -> bool {
        &&& self.vars@.len() == WATCH_COUNT
        &&& self.data@.len() == IMAGE_LEN
        &&& forall|watch: int|
            0 <= watch < WATCH_COUNT ==> (#[trigger] self.vars@[watch]).address == address_of(watch)
                && self.vars@[watch].width == width_of(watch)
    }

    /// The watchers, by row of `WATCHED`.
    pub closed spec fn watchers(&self) -> Seq<MemoryWatcher> {
        self.vars@
    }

    /// The bytes of the memory image.
    pub closed spec fn image(&self) -> Seq<u8> {
        self.data@
    }

    /// Whether an update has been made, so that the watchers hold two readings.
    pub closed spec fn primed(&self) -> bool {
        !self.do_extra_update
    }

    /// The latch of the run that ends with the hundredth missile.
    pub closed spec fn hundredth_missile(&self) -> Latch {
        self.picked_up_hundredth_missile
    }

    /// The latch of the run that ends with the super missiles behind Spore Spawn.
    pub closed spec fn spore_spawn_super(&self) -> Latch {
        self.picked_up_spore_spawn_super
    }

    /// The latency samples in the window, oldest first.
    pub closed spec fn samples(&self) -> Seq<u32> {
        self.latency_samples@
    }

    /// A state that has seen nothing of the game: an image of zeros, untouched watchers,
    /// disarmed latches and no latency samples.
    pub fn new() -> (state: SNESState)
        ensures
            state.watchers() == fresh_watchers(),
            state.image() == Seq::new(IMAGE_LEN as nat, |at: int| 0u8),
            !state.primed(),
            state.hundredth_missile() == Latch::Disarmed,
            state.spore_spawn_super() == Latch::Disarmed,
            state.samples() == Seq::<u32>::empty(),
    {
        let mut data: Vec<u8> = Vec::with_capacity(IMAGE_LEN);
        let mut at: usize = 0;
        while at < IMAGE_LEN
            invariant
                at <= IMAGE_LEN,
                data@.len() == at,
                forall|i: int| 0 <= i < at ==> data@[i] == 0u8,
            decreases IMAGE_LEN - at,
        {
            data.push(0);
            at += 1;
        }
        let mut vars: Vec<MemoryWatcher> = Vec::new();
        let mut watch: usize = 0;
        while watch < WATCH_COUNT
            invariant
                watch <= WATCH_COUNT,
                vars@.len() == watch,
                forall|w: int|
                    0 <= w < watch ==> vars@[w] == MemoryWatcher::fresh(address_of(w), width_of(w)),
            decreases WATCH_COUNT - watch,
        {
            vars.push(MemoryWatcher::new(WATCHED[watch].2, WATCHED[watch].3));
            watch += 1;
        }
        assert(vars@ =~= fresh_watchers());
        assert(data@ =~= Seq::new(IMAGE_LEN as nat, |at: int| 0u8));
        SNESState {
            do_extra_update: true,
            data: data,
            latency_samples: LatencyWindow::new(),
            picked_up_hundredth_missile: Latch::Disarmed,
            picked_up_spore_spawn_super: Latch::Disarmed,
            vars: vars,
        }
    }

    /// Advances every watcher over the memory image; the first time, twice, so that no old
    /// value is the 0 of a new watcher.
    pub fn update(&mut self)
        ensures
            final(self).watchers() == updated(
                old(self).watchers(),
                old(self).image(),
                old(self).primed(),
            ),
            final(self).primed(),
            final(self).image() == old(self).image(),
            final(self).hundredth_missile() == old(self).hundredth_missile(),
            final(self).spore_spawn_super() == old(self).spore_spawn_super(),
            final(self).samples() == old(self).samples(),
    {
        proof {
            use_type_invariant(&*self);
            crate::watch::lemma_watched_within_image();
        }
        let twice = self.do_extra_update;
        let mut advanced: Vec<MemoryWatcher> = Vec::with_capacity(WATCH_COUNT);
        let mut watch: usize = 0;
        while watch < WATCH_COUNT
            invariant
                watch <= WATCH_COUNT,
                advanced@.len() == watch,
                self.vars@.len() == WATCH_COUNT,
                self.data@.len() == IMAGE_LEN,
                forall|w: int|
                    0 <= w < WATCH_COUNT ==> (#[trigger] WATCHED[w]).2 + 1 < IMAGE_LEN,
                forall|w: int|
                    0 <= w < WATCH_COUNT ==> (#[trigger] self.vars@[w]).address == address_of(w)
                        && self.vars@[w].width == width_of(w),
                forall|w: int|
                    0 <= w < watch ==> advanced@[w] == if twice {
                        self.vars@[w].advanced(self.data@).advanced(self.data@)
                    } else {
                        self.vars@[w].advanced(self.data@)
                    },
            decreases WATCH_COUNT - watch,
        {
            let mut watcher = self.vars[watch];
            assert(WATCHED[watch as int].2 + 1 < IMAGE_LEN);
            if twice {
                watcher.update_value(&self.data);
            }
            watcher.update_value(&self.data);
            advanced.push(watcher);
            watch += 1;
        }
        assert(advanced@ =~= if twice {
            advance_all(advance_all(self.vars@, self.data@), self.data@)
        } else {
            advance_all(self.vars@, self.data@)
        });
        self.vars = advanced;
        self.do_extra_update = false;
    }

    /// The watcher of row `watch`.
    pub fn watch(&self, watch: usize) -> (watcher: MemoryWatcher)
        requires
            watch < WATCH_COUNT,
        ensures
            watcher == self.watchers()[watch as int],
            watcher.address == address_of(watch as int),
            watcher.width == width_of(watch as int),
            self.watchers().len() == WATCH_COUNT,
    {
        proof {
            use_type_invariant(self);
        }
        self.vars[watch]
    }

    /// The old and the current value of the watched value called `name`.
    pub fn lookup(&self, name: &str) -> (values: Result<(u32, u32), Error>)
        ensures
            watched(name@) ==> values == Ok::<(u32, u32), Error>(
                (self.watchers()[watch_of(name@)].old, self.watchers()[watch_of(name@)].current),
            ),
            !watched(name@) ==> values == Err::<(u32, u32), Error>(Error::UnknownKey),
    {
        proof {
            use_type_invariant(self);
        }
        match find_watch(name) {
            None => Err(Error::UnknownKey),
            Some(watch) => Ok((self.vars[watch].old, self.vars[watch].current)),
        }
    }

    /// Whether a run begins in this cycle.
    pub fn start(&self) -> (start: bool)
        ensures
            start == run_starts(self.watchers()[GAME_STATE as int]),
    {
        let state = self.watch(GAME_STATE);
        let normal_start = state.old == STATE_OPTIONS && state.current == STATE_NEW_GAME;
        let cutscene_ended = state.old == STATE_INTRO && state.current == STATE_NEW_GAME;
        let zebes_start = state.old == STATE_FILE_SELECT && state.current == STATE_LOADING;
        normal_start || cutscene_ended || zebes_start
    }

    /// Whether the run is given up in this cycle: the room word went from a room to none.
    pub fn reset(&self) -> (reset: bool)
        ensures
            reset == run_resets(self.watchers()[ROOM_ID as int]),
    {
        let room = self.watch(ROOM_ID);
        room.old != 0 && room.current == 0
    }

    /// Writes what was fetched into the memory image, each stretch of `RANGES` to its place.
    /// Bytes beyond a stretch's length are left out.
    pub fn store(&mut self, fetched: &Vec<Vec<u8>>)
        requires
            covers(fetched.deep_view()),
        ensures
            final(self).image() == stored(
                old(self).image(),
                fetched.deep_view(),
                RANGE_COUNT as int,
            ),
            final(self).watchers() == old(self).watchers(),
            final(self).primed() == old(self).primed(),
            final(self).hundredth_missile() == old(self).hundredth_missile(),
            final(self).spore_spawn_super() == old(self).spore_spawn_super(),
            final(self).samples() == old(self).samples(),
    {
        proof {
            use_type_invariant(&*self);
            crate::image::lemma_ranges_within_image();
        }
        let mut range: usize = 0;
        while range < RANGE_COUNT
            invariant
                range <= RANGE_COUNT,
                covers(fetched.deep_view()),
                self.data@.len() == IMAGE_LEN,
                self.vars == old(self).vars,
                self.do_extra_update == old(self).do_extra_update,
                self.picked_up_hundredth_missile == old(self).picked_up_hundredth_missile,
                self.picked_up_spore_spawn_super == old(self).picked_up_spore_spawn_super,
                self.latency_samples == old(self).latency_samples,
                self.vars@.len() == WATCH_COUNT,
                forall|w: int|
                    0 <= w < WATCH_COUNT ==> (#[trigger] self.vars@[w]).address == address_of(w)
                        && self.vars@[w].width == width_of(w),
                forall|r: int|
                    0 <= r < RANGE_COUNT ==> (#[trigger] RANGES[r]).0 >= WRAM_BASE && RANGES[r].0
                        - WRAM_BASE + RANGES[r].1 <= IMAGE_LEN,
                self.data@ == stored(old(self).data@, fetched.deep_view(), range as int),
            decreases RANGE_COUNT - range,
        {
            let offset = (RANGES[range].0 - WRAM_BASE) as usize;
            let length = RANGES[range].1;
            let bytes = &fetched[range];
            assert(fetched.deep_view()[range as int] == bytes@);
            assert(bytes@.len() >= length);
            let ghost before = self.data@;
            let mut i: usize = 0;
            while i < length
                invariant
                    i <= length,
                    length <= bytes@.len(),
                    offset + length <= IMAGE_LEN,
                    self.data@.len() == IMAGE_LEN,
                    before.len() == IMAGE_LEN,
                    self.vars == old(self).vars,
                    self.do_extra_update == old(self).do_extra_update,
                    self.picked_up_hundredth_missile == old(self).picked_up_hundredth_missile,
                    self.picked_up_spore_spawn_super == old(self).picked_up_spore_spawn_super,
                    self.latency_samples == old(self).latency_samples,
                    self.vars@.len() == WATCH_COUNT,
                    forall|w: int|
                        0 <= w < WATCH_COUNT ==> (#[trigger] self.vars@[w]).address == address_of(w)
                            && self.vars@[w].width == width_of(w),
                    forall|at: int|
                        0 <= at < IMAGE_LEN ==> self.data@[at] == if offset <= at < offset + i {
                            bytes@[at - offset]
                        } else {
                            before[at]
                        },
                decreases length - i,
            {
                self.data[offset + i] = bytes[i];
                i += 1;
            }
            assert(self.data@ =~= overlaid(before, offset as int, bytes@.take(length as int)));
            range += 1;
        }
    }

    /// The two latches: that of the hundredth missile, then that of the super missiles
    /// behind Spore Spawn.
    pub fn latches(&self) -> (latches: (Latch, Latch))
        ensures
            latches.0 == self.hundredth_missile(),
            latches.1 == self.spore_spawn_super(),
    {
        (self.picked_up_hundredth_missile, self.picked_up_spore_spawn_super)
    }

    /// Puts the two latches where a cycle left them.
    pub(crate) fn set_latches(&mut self, hundredth_missile: Latch, spore_spawn_super: Latch)
        ensures
            final(self).hundredth_missile() == hundredth_missile,
            final(self).spore_spawn_super() == spore_spawn_super,
            final(self).watchers() == old(self).watchers(),
            final(self).image() == old(self).image(),
            final(self).primed() == old(self).primed(),
            final(self).samples() == old(self).samples(),
    {
        proof {
            use_type_invariant(&*self);
        }
        self.picked_up_hundredth_missile = hundredth_missile;
        self.picked_up_spore_spawn_super = spore_spawn_super;
    }

    /// Adds the duration of a cycle to the latency window.
    pub fn record_latency(&mut self, elapsed: u32)
        ensures
            final(self).samples() == newest(old(self).samples().push(elapsed), WINDOW as nat),
            final(self).watchers() == old(self).watchers(),
            final(self).image() == old(self).image(),
            final(self).primed() == old(self).primed(),
            final(self).hundredth_missile() == old(self).hundredth_missile(),
            final(self).spore_spawn_super() == old(self).spore_spawn_super(),
    {
        proof {
            use_type_invariant(&*self);
        }
        let mut window = LatencyWindow::new();
        core::mem::swap(&mut self.latency_samples, &mut window);
        window.record(elapsed);
        self.latency_samples = window;
    }

    /// The latency window.
    pub fn latency(&self) -> (window: &LatencyWindow)
        ensures
            window@ == self.samples(),
    {
        &self.latency_samples
    }
}

/// After the first update every watcher holds what the image holds at its place, as its old
/// value and as its current one: no rule can take the 0 of a new watcher for a reading.
pub proof fn lemma_first_update_settles(image: Seq<u8>, watch: int)
    requires
        0 <= watch < WATCH_COUNT,
    ensures
        updated(fresh_watchers(), image, false)[watch].old == reading(
            image,
            address_of(watch) as int,
            width_of(watch),
        ),
        updated(fresh_watchers(), image, false)[watch].current == reading(
            image,
            address_of(watch) as int,
            width_of(watch),
        ),
{
}

/// An update over unchanged bytes leaves no change to see: each old value is the current one.
pub proof fn lemma_update_over_same_image(watchers: Seq<MemoryWatcher>, image: Seq<u8>, watch: int)
    requires
        0 <= watch < watchers.len(),
    ensures
        updated(updated(watchers, image, false), image, true)[watch].old == updated(
            updated(watchers, image, false),
            image,
            true,
        )[watch].current,
{
}

} // verus!
