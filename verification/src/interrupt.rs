//! The interrupt part of the vector table. How many slots it has, and which
//! of them are reserved, depends on the device.

use vstd::prelude::*;
use crate::exception::{Handler, Vector};

verus! {

/// Why an interrupt slot could not be overridden.
#[derive(Clone, Copy, Debug, PartialEq, Eq, Structural)]
pub enum OverrideError {
    /// The table has no slot with that index.
    OutOfRange,
    /// The slot is reserved on this device and must stay empty.
    ReservedSlot,
}

/// Interrupt handlers: the slots of the table in the order of the device's
/// interrupt numbers.
#[derive(Debug)]
pub struct Handlers {
    pub slots: Vec<Vector>,
}

impl View for Handlers {
    type V = Seq<Vector>;

    open spec fn view(&self) -> Seq<Vector> {
        self.slots@
    }
}

/// The default table for a device: slot `i` is empty where `reserved[i]`
/// holds, and goes to `trampoline` otherwise.
pub open spec fn defaults(reserved: Seq<bool>, trampoline: Handler) -> Seq<Vector> {
    Seq::new(
        reserved.len(),
        |i: int|
            if reserved[i] {
                Vector::Reserved
            } else {
                Vector::Handler(trampoline)
            },
    )
}

impl Handlers {
    /// The default handlers of a device with `reserved.len()` interrupt
    /// slots, of which those marked in `reserved` stay empty.
    pub fn default_handlers(reserved: &Vec<bool>, trampoline: Handler) -> (h: Handlers)
        ensures
            h@ == defaults(reserved@, trampoline),
    {
        let mut slots: Vec<Vector> = Vec::new();
        let mut i: usize = 0;
        while i < reserved.len()
            invariant
                i <= reserved.len(),
                slots@ == defaults(reserved@.take(i as int), trampoline),
            decreases reserved.len() - i,
        {
            let slot: Vector = if reserved[i] {
                Vector::Reserved
            } else {
                Vector::Handler(trampoline)
            };
            slots.push(slot);
            i += 1;
            assert(slots@ =~= defaults(reserved@.take(i as int), trampoline));
        }
        assert(reserved@.take(i as int) =~= reserved@);
        Handlers { slots }
    }

    /// The number of slots.
    pub fn len(&self) -> (n: usize)
        ensures
            n == self@.len(),
    {
        self.slots.len()
    }

    /// A new table with `handler` in slot `index` and every other slot as in
    /// `self`. A reserved slot cannot be overridden, nor one past the end.
    pub fn with(self, index: usize, handler: Handler) -> (r: Result<Handlers, OverrideError>)
        ensures
            match r {
                Ok(h) => index < self@.len() && self@[index as int] != Vector::Reserved && h@
                    == self@.update(index as int, Vector::Handler(handler)),
                Err(OverrideError::OutOfRange) => index >= self@.len(),
                Err(OverrideError::ReservedSlot) => index < self@.len() && self@[index as int]
                    == Vector::Reserved,
            },
    {
        if index >= self.slots.len() {
            return Err(OverrideError::OutOfRange);
        }
        match self.slots[index] {
            Vector::Reserved => Err(OverrideError::ReservedSlot),
            Vector::Handler(_) => {
                let mut slots: Vec<Vector> = self.slots;
                slots.set(index, Vector::Handler(handler));
                Ok(Handlers { slots })
            },
        }
    }

    /// The words of the table as they lie in memory, slot by slot.
    pub fn words(&self) -> (w: Vec<u32>)
        ensures
            w@ == self@.map_values(|v: Vector| v.spec_word()),
            forall|i: int|
                0 <= i < self@.len() ==> (#[trigger] w@[i] == crate::exception::RESERVED_WORD)
                    == (self@[i] == Vector::Reserved),
    {
        let mut w: Vec<u32> = Vec::new();
        let mut i: usize = 0;
        while i < self.slots.len()
            invariant
                i <= self@.len(),
                w@.len() == i,
                forall|k: int| 0 <= k < i ==> #[trigger] w@[k] == self@[k].spec_word(),
                forall|k: int|
                    0 <= k < i ==> (#[trigger] w@[k] == crate::exception::RESERVED_WORD) == (
                    self@[k] == Vector::Reserved),
            decreases self@.len() - i,
        {
            let word: u32 = self.slots[i].word();
            w.push(word);
            i += 1;
        }
        assert(w@ =~= self@.map_values(|v: Vector| v.spec_word()));
        w
    }
}

/// An override leaves every reserved slot empty and changes no slot but its
/// own.
pub proof fn lemma_override_keeps_reserved(
    table: Seq<Vector>,
    index: int,
    handler: Handler,
    i: int,
)
    requires
        0 <= index < table.len(),
        table[index] != Vector::Reserved,
        0 <= i < table.len(),
    ensures
        table.update(index, Vector::Handler(handler)).len() == table.len(),
        table[i] == Vector::Reserved <==> table.update(index, Vector::Handler(handler))[i]
            == Vector::Reserved,
        i != index ==> table.update(index, Vector::Handler(handler))[i] == table[i],
{
}

} // verus!
