//! The toggles and their values. A toggle takes effect only while every toggle above it is
//! switched on too.
use crate::error::Error;
use crate::keys::{
    find, initial, initial_of, key_of, known, name, name_of, parent, parent_of, KEY_COUNT,
    PRESET_ANY_PERCENT, PRESET_HUNDO, PRESET_MISC_UPGRADES,
};
use vstd::prelude::*;

verus! {

/// The values that the toggles start with.
pub open spec fn initial_values() -> Seq<bool> {
    Seq::new(KEY_COUNT as nat, |key: int| initial_of(key))
}

/// Whether toggle `key` takes effect: it is switched on, and so is every toggle above it.
pub open spec fn active(flags: Seq<bool>, key: int) -> bool
    decreases key,
{
    if 0 <= key < flags.len() {
        flags[key] && match parent_of(key) {
            Some(above) => active(flags, above),
            None => true,
        }
    } else {
        false
    }
}

/// `upper` is `key` itself or stands above it, any number of steps up.
pub open spec fn at_or_above(upper: int, key: int) -> bool
    decreases key,
{
    upper == key || match parent_of(key) {
        Some(above) => 0 <= key && at_or_above(upper, above),
        None => false,
    }
}

/// Every toggle above `key` is switched on.
pub open spec fn all_above_on(flags: Seq<bool>, key: int) -> bool {
    forall|upper: int| at_or_above(upper, key) && upper != key ==> flags[upper]
}

/// `flags` with every toggle of `keys` switched on.
pub open spec fn switched_on(flags: Seq<bool>, keys: Seq<usize>) -> Seq<bool> {
    Seq::new(flags.len(), |key: int| flags[key] || keys.contains(key as usize))
}

/// `flags` after the first `upto` of `saved` have been written, in their order, to the toggles
/// that they name. A name that no toggle has is passed over.
pub open spec fn restored(flags: Seq<bool>, saved: Seq<(String, bool)>, upto: int) -> Seq<bool>
    decreases upto,
{
    if upto <= 0 {
        flags
    } else {
        let before = restored(flags, saved, upto - 1);
        if known(saved[upto - 1].0@) {
            before.update(key_of(saved[upto - 1].0@), saved[upto - 1].1)
        } else {
            before
        }
    }
}

/// The names of the toggles among the first `upto` that `wanted` picks, in catalogue order.
pub open spec fn names_where(wanted: spec_fn(int) -> bool, upto: int) -> Seq<Seq<char>>
    decreases upto,
{
    if upto <= 0 {
        Seq::empty()
    } else if wanted(upto - 1) {
        names_where(wanted, upto - 1).push(name_of(upto - 1))
    } else {
        names_where(wanted, upto - 1)
    }
}

/// The names of the toggles that have no parent.
pub open spec fn root_names() -> Seq<Seq<char>> {
    names_where(|key: int| parent_of(key) is None, KEY_COUNT as int)
}

/// The names of the toggles directly below the toggle called `name`; none if there is no such
/// toggle.
pub open spec fn child_names(name: Seq<char>) -> Seq<Seq<char>> {
    names_where(|key: int| known(name) && parent_of(key) == Some(key_of(name)), KEY_COUNT as int)
}

/// The value of every toggle of the catalogue.
pub struct Settings {
    flags: Vec<bool>,
    modified_after_creation: bool,
}

impl View for Settings {
    type V = Seq<bool>;

    /// The value of each toggle, by key.
    closed spec fn view(&self) -> Seq<bool> {
        self.flags@
    }
}

impl Clone for Settings {
    /// Settings of their own that hold the same values.
    fn clone(&self) -> (copy: Settings)
        ensures
            copy@ == self@,
            copy.modified() == self.modified(),
    {
        proof {
            use_type_invariant(self);
        }
        let flags = self.flags.clone();
        assert(flags@ =~= self.flags@);
        Settings { flags: flags, modified_after_creation: self.modified_after_creation }
    }
}

impl Settings {
    #[verifier::type_invariant]
    spec fn complete(self) -> bool {
        self.flags@.len() == KEY_COUNT
    }

    /// Whether a value may have changed since `new`.
    pub closed spec fn modified(&self) -> bool {
        self.modified_after_creation
    }

    /// Every toggle at the value it starts with.
    pub fn new() -> (settings: Settings)
        ensures
            settings@ == initial_values(),
            !settings.modified(),
    {
        let mut flags: Vec<bool> = Vec::new();
        let mut key: usize = 0;
        while key < KEY_COUNT
            invariant
                key <= KEY_COUNT,
                flags@.len() == key,
                forall|k: int| 0 <= k < key ==> flags@[k] == initial_of(k),
            decreases KEY_COUNT - key,
        {
            flags.push(initial(key));
            key += 1;
        }
        assert(flags@ =~= initial_values());
        Settings { flags, modified_after_creation: false }
    }

    /// The settings that were saved: every toggle at the value it starts with, but for those
    /// that `saved` names, which have the value saved last. They count as unmodified.
    pub fn restore(saved: &Vec<(String, bool)>) -> (settings: Settings)
        ensures
            settings@ == restored(initial_values(), saved@, saved@.len() as int),
            !settings.modified(),
    {
        let mut settings = Settings::new();
        let mut i: usize = 0;
        while i < saved.len()
            invariant
                i <= saved@.len(),
                settings.flags@.len() == KEY_COUNT,
                !settings.modified_after_creation,
                settings@ == restored(initial_values(), saved@, i as int),
            decreases saved@.len() - i,
        {
            match find(saved[i].0.as_str()) {
                None => {},
                Some(key) => {
                    settings.flags[key] = saved[i].1;
                },
            }
            i += 1;
        }
        settings
    }

    /// Whether toggle `key` takes effect.
    pub fn is_active(&self, key: usize) -> (on: bool)
        requires
            key < KEY_COUNT,
        ensures
            on == active(self@, key as int),
            self@.len() == KEY_COUNT,
    {
        proof {
            use_type_invariant(self);
        }
        let mut at: usize = key;
        loop
            invariant
                at < KEY_COUNT,
                self.flags@.len() == KEY_COUNT,
                active(self@, key as int) == active(self@, at as int),
            decreases at,
        {
            if !self.flags[at] {
                return false;
            }
            match parent(at) {
                None => {
                    return true;
                },
                Some(above) => {
                    at = above;
                },
            }
        }
    }

    /// Whether the toggle called `var` takes effect.
    pub fn get(&self, var: &str) -> (answer: Result<bool, Error>)
        ensures
            known(var@) ==> answer == Ok::<bool, Error>(active(self@, key_of(var@))),
            !known(var@) ==> answer == Err::<bool, Error>(Error::UnknownKey),
            self@.len() == KEY_COUNT,
    {
        proof {
            use_type_invariant(self);
        }
        match find(var) {
            None => Err(Error::UnknownKey),
            Some(key) => Ok(self.is_active(key)),
        }
    }

    /// Gives the toggle called `var` the value `value`. No other toggle changes.
    pub fn set(&mut self, var: &str, value: bool) -> (done: Result<(), Error>)
        ensures
            known(var@) ==> done is Ok && final(self)@ == old(self)@.update(key_of(var@), value)
                && final(self).modified(),
            !known(var@) ==> done == Err::<(), Error>(Error::UnknownKey) && final(self)@ == old(
                self,
            )@ && final(self).modified() == old(self).modified(),
            old(self)@.len() == KEY_COUNT,
    {
        proof {
            use_type_invariant(&*self);
        }
        match find(var) {
            None => Err(Error::UnknownKey),
            Some(key) => {
                self.flags[key] = value;
                self.modified_after_creation = true;
                Ok(())
            },
        }
    }

    /// The toggles that have no parent, in catalogue order.
    pub fn roots(&self) -> (names: Vec<String>)
        ensures
            names.deep_view() == root_names(),
    {
        let ghost wanted = |key: int| parent_of(key) is None;
        let mut names: Vec<String> = Vec::new();
        let mut key: usize = 0;
        while key < KEY_COUNT
            invariant
                key <= KEY_COUNT,
                wanted == |key: int| parent_of(key) is None,
                names.deep_view() == names_where(wanted, key as int),
            decreases KEY_COUNT - key,
        {
            let ghost before = names.deep_view();
            if parent(key).is_none() {
                names.push(name(key).to_owned());
                assert(names.deep_view() =~= before.push(name_of(key as int)));
            }
            key += 1;
        }
        names
    }

    /// The toggles directly below the toggle called `key`, in catalogue order.
    pub fn children(&self, key: &str) -> (names: Vec<String>)
        ensures
            names.deep_view() == child_names(key@),
    {
        let ghost wanted = |below: int| known(key@) && parent_of(below) == Some(key_of(key@));
        let mut names: Vec<String> = Vec::new();
        let above = find(key);
        let mut below: usize = 0;
        while below < KEY_COUNT
            invariant
                below <= KEY_COUNT,
                wanted == |below: int| known(key@) && parent_of(below) == Some(key_of(key@)),
                match above {
                    Some(k) => known(key@) && k as int == key_of(key@),
                    None => !known(key@),
                },
                names.deep_view() == names_where(wanted, below as int),
            decreases KEY_COUNT - below,
        {
            let ghost before = names.deep_view();
            let is_child = match (above, parent(below)) {
                (Some(k), Some(p)) => p == k,
                _ => false,
            };
            if is_child {
                names.push(name(below).to_owned());
                assert(names.deep_view() =~= before.push(name_of(below as int)));
            }
            below += 1;
        }
        names
    }

    /// The value of the toggle called `var` itself, whatever stands above it.
    pub fn lookup(&self, var: &str) -> (value: Result<bool, Error>)
        ensures
            known(var@) ==> value == Ok::<bool, Error>(self@[key_of(var@)]),
            !known(var@) ==> value == Err::<bool, Error>(Error::UnknownKey),
            self@.len() == KEY_COUNT,
    {
        proof {
            use_type_invariant(self);
        }
        match find(var) {
            None => Err(Error::UnknownKey),
            Some(key) => Ok(self.flags[key]),
        }
    }

    /// Hands out the value of the toggle called `var` itself, to be read or written in place.
    /// The settings count as modified from then on, whether or not a new value is written.
    pub fn lookup_mut(&mut self, var: &str) -> (value: Result<&mut bool, Error>)
        ensures
            match value {
                Ok(flag) => {
                    &&& known(var@)
                    &&& *flag == old(self)@[key_of(var@)]
                    &&& final(self)@ == old(self)@.update(key_of(var@), *final(flag))
                    &&& final(self).modified()
                },
                Err(e) => {
                    &&& e == Error::UnknownKey
                    &&& !known(var@)
                    &&& final(self)@ == old(self)@
                    &&& final(self).modified() == old(self).modified()
                },
            },
    {
        proof {
            use_type_invariant(&*self);
        }
        match find(var) {
            None => Err(Error::UnknownKey),
            Some(key) => {
                self.modified_after_creation = true;
                Ok(&mut self.flags[key])
            },
        }
    }

    /// Whether a value may have changed since `new`.
    pub fn has_been_modified(&self) -> (modified: bool)
        ensures
            modified == self.modified(),
    {
        self.modified_after_creation
    }
    /// Switches on every toggle of `keys`.
    fn switch_on<const N: usize>(&mut self, keys: &[usize; N])
        requires
            forall|i: int| 0 <= i < N ==> keys@[i] < KEY_COUNT,
        ensures
            final(self)@ == switched_on(old(self)@, keys@),
            final(self)@.len() == KEY_COUNT,
            final(self).modified(),
    {
        proof {
            use_type_invariant(&*self);
        }
        let mut i: usize = 0;
        while i < N
            invariant
                i <= N,
                keys@.len() == N,
                self.flags@.len() == KEY_COUNT,
                old(self).flags@.len() == KEY_COUNT,
                forall|j: int| 0 <= j < N ==> keys@[j] < KEY_COUNT,
                forall|key: int|
                    0 <= key < KEY_COUNT ==> self.flags@[key] == (old(self).flags@[key]
                        || exists|j: int| 0 <= j < i && keys@[j] == key),
            decreases N - i,
        {
            let key = keys[i];
            self.flags[key] = true;
            i += 1;
        }
        self.modified_after_creation = true;
        assert(self.flags@ =~= switched_on(old(self)@, keys@)) by {
            assert forall|key: int| 0 <= key < KEY_COUNT implies self.flags@[key] == (old(
                self,
            ).flags@[key] || keys@.contains(key as usize)) by {
                if keys@.contains(key as usize) {
                    let j = choose|j: int| 0 <= j < keys@.len() && keys@[j] == key as usize;
                    assert(keys@[j] == key);
                }
            }
        }
    }

    /// Switches on the toggles for the upgrades that are neither suits, beams nor boots:
    /// those of `PRESET_MISC_UPGRADES`. No toggle is switched off.
    pub fn split_on_misc_upgrades(&mut self)
        ensures
            final(self)@ == switched_on(old(self)@, PRESET_MISC_UPGRADES@),
            final(self)@.len() == KEY_COUNT,
            final(self).modified(),
    {
        self.switch_on(&PRESET_MISC_UPGRADES);
    }

    /// Switches on the toggles of a run that collects everything: those of `PRESET_HUNDO`.
    /// No toggle is switched off.
    pub fn split_on_hundo(&mut self)
        ensures
            final(self)@ == switched_on(old(self)@, PRESET_HUNDO@),
            final(self)@.len() == KEY_COUNT,
            final(self).modified(),
    {
        self.switch_on(&PRESET_HUNDO);
    }

    /// Switches on the toggles of a run that only has to reach the end: those of
    /// `PRESET_ANY_PERCENT`. No toggle is switched off.
    pub fn split_on_anypercent(&mut self)
        ensures
            final(self)@ == switched_on(old(self)@, PRESET_ANY_PERCENT@),
            final(self)@.len() == KEY_COUNT,
            final(self).modified(),
    {
        self.switch_on(&PRESET_ANY_PERCENT);
    }
}

/// A name is among `names_where(wanted, upto)` exactly when one of the first `upto` toggles
/// has it and is picked by `wanted`.
pub proof fn lemma_names_where_holds(wanted: spec_fn(int) -> bool, upto: int, name: Seq<char>)
    ensures
        names_where(wanted, upto).contains(name) <==> exists|key: int|
            0 <= key < upto && wanted(key) && #[trigger] name_of(key) == name,
    decreases upto,
{
    if upto > 0 {
        lemma_names_where_holds(wanted, upto - 1, name);
        let fewer = names_where(wanted, upto - 1);
        if wanted(upto - 1) {
            let all = fewer.push(name_of(upto - 1));
            if all.contains(name) {
                let i = choose|i: int| 0 <= i < all.len() && all[i] == name;
                if i < fewer.len() {
                    assert(fewer[i] == name);
                    assert(fewer.contains(name));
                } else {
                    assert(name_of(upto - 1) == name);
                }
            }
            if fewer.contains(name) {
                let i = choose|i: int| 0 <= i < fewer.len() && fewer[i] == name;
                assert(all[i] == name);
            }
            assert(all[all.len() - 1] == name_of(upto - 1));
        }
    }
}

/// What stands at or above a toggle is the toggle itself or an earlier row.
pub proof fn lemma_above_is_earlier(upper: int, key: int)
    requires
        0 <= key,
        at_or_above(upper, key),
    ensures
        0 <= upper <= key,
    decreases key,
{
    if upper != key {
        lemma_above_is_earlier(upper, parent_of(key)->Some_0);
    }
}

/// While a toggle is switched off, neither it nor anything below it takes effect, whatever
/// values the toggles below have.
pub proof fn lemma_off_gates_all_below(flags: Seq<bool>, upper: int, key: int)
    requires
        0 <= key < flags.len(),
        at_or_above(upper, key),
        !flags[upper],
    ensures
        !active(flags, key),
    decreases key,
{
    if upper != key {
        lemma_off_gates_all_below(flags, upper, parent_of(key)->Some_0);
    }
}

/// A toggle with everything above it switched on takes effect exactly when it is switched on
/// itself.
pub proof fn lemma_own_value_when_all_above_on(flags: Seq<bool>, key: int)
    requires
        0 <= key < flags.len(),
        all_above_on(flags, key),
    ensures
        active(flags, key) == flags[key],
    decreases key,
{
    if let Some(above) = parent_of(key) {
        assert(at_or_above(above, above));
        assert(at_or_above(above, key));
        assert forall|upper: int|
            at_or_above(upper, above) && upper != above implies flags[upper] by {
            lemma_above_is_earlier(upper, above);
            assert(at_or_above(upper, key));
        }
        lemma_own_value_when_all_above_on(flags, above);
    }
}

/// A new value for one toggle changes what takes effect only at that toggle and below it.
pub proof fn lemma_set_reaches_only_below(flags: Seq<bool>, changed: int, value: bool, key: int)
    requires
        0 <= changed < flags.len(),
        !at_or_above(changed, key),
    ensures
        active(flags.update(changed, value), key) == active(flags, key),
    decreases key,
{
    if 0 <= key < flags.len() {
        if let Some(above) = parent_of(key) {
            lemma_set_reaches_only_below(flags, changed, value, above);
        }
    }
}

/// Hierarchical gating. Switching a toggle off stops everything at or below it, whatever its
/// own value; giving the toggle its earlier value again brings back every value as it was, and
/// with it what took effect; and once every toggle above `key` is on, `key` takes effect by
/// its own value alone.
pub proof fn lemma_gating(flags: Seq<bool>, upper: int, key: int)
    requires
        0 <= key < flags.len(),
        at_or_above(upper, key),
    ensures
        !active(flags.update(upper, false), key),
        flags.update(upper, false).update(upper, flags[upper]) == flags,
        all_above_on(flags.update(upper, true), key) ==> active(flags.update(upper, true), key)
            == flags.update(upper, true)[key],
{
    lemma_above_is_earlier(upper, key);
    lemma_off_gates_all_below(flags.update(upper, false), upper, key);
    assert(flags.update(upper, false).update(upper, flags[upper]) =~= flags);
    if all_above_on(flags.update(upper, true), key) {
        lemma_own_value_when_all_above_on(flags.update(upper, true), key);
    }
}

} // verus!
