//! Device-side latest-wins display cell: a single-slot store written by the
//! request dispatcher and read by one render consumer. Each write replaces
//! the slot's value wholesale; a reader that misses intermediate writes only
//! ever observes the most recent one.

use vstd::prelude::*;

use crate::icd::{Screen, ScreenView};

verus! {

/// Mathematical value of a [`DisplaySlot`]: the current screen, if any, a
/// wrapping count of the writes so far, and whether the single reader has
/// been registered.
pub struct DisplaySlotView {
    pub value: Option<ScreenView>,
    pub generation: u64,
    pub reader_registered: bool,
}

/// The slot after one write: the value replaced, the generation advanced by
/// one (wrapping), the reader registration untouched.
pub open spec fn slot_written(m: DisplaySlotView, s: ScreenView) -> DisplaySlotView {
    DisplaySlotView {
        value: Some(s),
        generation: ((m.generation + 1) % 0x1_0000_0000_0000_0000) as u64,
        reader_registered: m.reader_registered,
    }
}

/// The slot after a sequence of writes, oldest first.
pub open spec fn slot_after_writes(m: DisplaySlotView, writes: Seq<ScreenView>) -> DisplaySlotView
    decreases writes.len(),
{
    if writes.len() == 0 {
        m
    } else {
        slot_after_writes(slot_written(m, writes[0]), writes.skip(1))
    }
}

/// The single-slot cell holding the most recent screen, or unset before the
/// first write.
pub struct DisplaySlot {
    value: Option<Screen>,
    generation: u64,
    reader_registered: bool,
}

impl View for DisplaySlot {
    type V = DisplaySlotView;

    closed spec fn view(&self) -> DisplaySlotView {
        DisplaySlotView {
            value: match self.value {
                Some(ref s) => Some(s@),
                None => None,
            },
            generation: self.generation,
            reader_registered: self.reader_registered,
        }
    }
}

impl DisplaySlot {
    /// The slot holds a value from the first write on.
    pub open spec fn wf(self) -> bool {
        self@.value is None ==> self@.generation == 0
    }

    /// A fresh, unset slot.
    pub fn new() -> (r: Self)
        ensures
            r@.value is None,
            r@.generation == 0,
            !r@.reader_registered,
            r.wf(),
    {
        DisplaySlot { value: None, generation: 0, reader_registered: false }
    }

    /// Unconditionally overwrites the slot with a new screen. Synchronous and
    /// non-blocking: the previous value is superseded wholesale.
    pub fn write(&mut self, s: Screen)
        requires
            old(self).wf(),
        ensures
            final(self)@ == slot_written(old(self)@, s@),
            final(self).wf(),
    {
        self.value = Some(s);
        self.generation = self.generation.wrapping_add(1);
    }

    /// Registers the one render consumer. Only one reader may exist, so a
    /// second registration is refused: that is a configuration error.
    pub fn take_reader(&mut self) -> (r: Option<DisplayReader>)
        ensures
            r is Some <==> !old(self)@.reader_registered,
            final(self)@.reader_registered,
            final(self)@.value == old(self)@.value,
            final(self)@.generation == old(self)@.generation,
            r is Some ==> r->Some_0@ == 0,
    {
        if self.reader_registered {
            None
        } else {
            self.reader_registered = true;
            Some(DisplayReader { last_generation: 0 })
        }
    }
}

/// The render consumer's handle: remembers the generation of the last value
/// it observed. Only one reader is meant to exist; the slot itself never
/// tracks more than one.
pub struct DisplayReader {
    last_generation: u64,
}

impl View for DisplayReader {
    type V = u64;

    closed spec fn view(&self) -> u64 {
        self.last_generation
    }
}

impl DisplayReader {
    /// Returns the slot's value if it has been written since this reader last
    /// observed it, and nothing otherwise. Never yields more than the single
    /// most recent write.
    pub fn poll(&mut self, slot: &DisplaySlot) -> (r: Option<Screen>)
        requires
            slot.wf(),
            slot@.value is None ==> old(self)@ == 0,
        ensures
            r is Some <==> slot@.generation != old(self)@,
            r is Some ==> slot@.value is Some && r->Some_0@ == slot@.value->Some_0,
            final(self)@ == slot@.generation,
    {
        if slot.generation != self.last_generation {
            self.last_generation = slot.generation;
            match slot.value {
                Some(ref s) => Some(s.clone()),
                None => None,
            }
        } else {
            None
        }
    }
}

/// Latest wins: after any non-empty sequence of writes completes, a reader
/// that was up to date before them observes exactly the last value written,
/// never an earlier one.
pub proof fn lemma_reader_observes_last_write(m: DisplaySlotView, writes: Seq<ScreenView>)
    requires
        0 < writes.len() < 0x1_0000_0000_0000_0000,
    ensures
        slot_after_writes(m, writes).value == Some(writes.last()),
        slot_after_writes(m, writes).generation == (m.generation + writes.len())
            % 0x1_0000_0000_0000_0000,
        slot_after_writes(m, writes).generation != m.generation,
    decreases writes.len(),
{
    if writes.len() == 1 {
        assert(slot_after_writes(slot_written(m, writes[0]), writes.skip(1)) == slot_written(
            m,
            writes[0],
        ));
    } else {
        let m2 = slot_written(m, writes[0]);
        lemma_reader_observes_last_write(m2, writes.skip(1));
        assert(writes.skip(1).last() == writes.last());
        assert((((m.generation + 1) % 0x1_0000_0000_0000_0000) + (writes.len() - 1))
            % 0x1_0000_0000_0000_0000 == (m.generation + writes.len()) % 0x1_0000_0000_0000_0000)
            by {
            vstd::arithmetic::div_mod::lemma_add_mod_noop(
                m.generation + 1,
                writes.len() - 1,
                0x1_0000_0000_0000_0000,
            );
            vstd::arithmetic::div_mod::lemma_mod_twice(writes.len() - 1, 0x1_0000_0000_0000_0000);
            vstd::arithmetic::div_mod::lemma_add_mod_noop(
                m.generation + 1,
                (writes.len() - 1) % 0x1_0000_0000_0000_0000,
                0x1_0000_0000_0000_0000,
            );
        }
    }
    assert((m.generation + writes.len()) % 0x1_0000_0000_0000_0000 != m.generation) by {
        vstd::arithmetic::div_mod::lemma_small_mod(
            (m.generation) as nat,
            0x1_0000_0000_0000_0000 as nat,
        );
        vstd::arithmetic::div_mod::lemma_mod_bound(
            m.generation + writes.len(),
            0x1_0000_0000_0000_0000,
        );
    }
}

} // verus!
