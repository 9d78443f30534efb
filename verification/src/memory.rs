//! One watched place of the game's memory, with the value read there last and the one before.
use vstd::prelude::*;

verus! {

/// How many bytes a watched value takes.
#[derive(Debug, Copy, Clone, PartialEq, Eq, Structural)]
pub enum Width {
    /// One byte.
    Byte,
    /// Two bytes, the low one first.
    Word,
}

/// A place in memory, the value read there by the latest advance and the value of the advance
/// before that. A new watcher holds 0 twice, which no advance has read: both values are
/// readings only from the second advance on.
#[derive(Debug, Copy, Clone)]
pub struct MemoryWatcher {
    pub address: u32,
    pub current: u32,
    pub old: u32,
    pub width: Width,
}

/// The value of `width` that `memory` holds at `address`.
pub open spec fn reading(memory: Seq<u8>, address: int, width: Width) -> u32 {
    match width {
        Width::Byte => memory[address] as u32,
        Width::Word => (memory[address] + 256 * memory[address + 1]) as u32,
    }
}

impl MemoryWatcher {
    /// A watcher that no advance has touched.
    pub open spec fn fresh(address: u32, width: Width) -> MemoryWatcher {
        MemoryWatcher { address, current: 0, old: 0, width }
    }

    /// Every byte of the watched value lies within a memory of `len` bytes.
    pub open spec fn within(self, len: nat) -> bool {
        match self.width {
            Width::Byte => self.address < len,
            Width::Word => self.address + 1 < len,
        }
    }

    /// The watcher after one advance over `memory`: the value it had becomes the old one, and
    /// the new one is read from `memory`.
    pub open spec fn advanced(self, memory: Seq<u8>) -> MemoryWatcher {
        MemoryWatcher {
            address: self.address,
            current: reading(memory, self.address as int, self.width),
            old: self.current,
            width: self.width,
        }
    }

    /// A watcher of the value of `width` at `address`.
    pub fn new(address: u32, width: Width) -> (watcher: MemoryWatcher)
        ensures
            watcher == MemoryWatcher::fresh(address, width),
    {
        MemoryWatcher { address: address, current: 0, old: 0, width: width }
    }

    /// One advance: shifts the current value into the old one and reads a new current value.
    pub fn update_value(&mut self, memory: &Vec<u8>)
        requires
            old(self).within(memory@.len()),
        ensures
            *final(self) == old(self).advanced(memory@),
    {
        match self.width {
            Width::Byte => {
                self.old = self.current;
                self.current = memory[self.address as usize] as u32;
            },
            Width::Word => {
                let address = self.address as usize;
                assert(address + 1 < memory.len());
                self.old = self.current;
                let low: u8 = memory[address];
                let high: u8 = memory[address + 1];
                let word: u16 = (high as u16) << 8 | low as u16;
                assert(((high as u16) << 8 | low as u16) as u32 == low as u32 + 256u32
                    * high as u32) by (bit_vector);
                self.current = word as u32;
            },
        }
    }
}

/// After exactly one advance a new watcher still holds 0 as its old value, and holds what was
/// read as its current one.
pub proof fn lemma_first_advance(address: u32, width: Width, memory: Seq<u8>)
    ensures
        MemoryWatcher::fresh(address, width).advanced(memory).old == 0,
        MemoryWatcher::fresh(address, width).advanced(memory).current == reading(
            memory,
            address as int,
            width,
        ),
{
}

/// After a second advance over the same bytes the old value and the current one agree.
pub proof fn lemma_second_advance_settles(watcher: MemoryWatcher, memory: Seq<u8>)
    ensures
        watcher.advanced(memory).advanced(memory).old == watcher.advanced(memory).advanced(
            memory,
        ).current,
        watcher.advanced(memory).advanced(memory).current == reading(
            memory,
            watcher.address as int,
            watcher.width,
        ),
{
}

/// What was read fits its width.
pub proof fn lemma_reading_fits(memory: Seq<u8>, address: int, width: Width)
    ensures
        width == Width::Byte ==> reading(memory, address, width) <= 0xFF,
        reading(memory, address, width) <= 0xFFFF,
{
}

} // verus!
