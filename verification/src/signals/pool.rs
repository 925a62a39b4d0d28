//! The slots and the handles to them.

use vstd::prelude::*;
use crate::signals::object::Object;

verus! {

/// One slot: the latest value and the number of writes so far.
#[derive(Clone, Copy, Debug, PartialEq, Eq, Structural)]
pub struct SignalData {
    /// The latest value written, if any.
    pub value: Option<Object>,
    /// The number of writes, wrapping around.
    pub version: u64,
}

/// A handle to a slot, with the number of the last write it has seen.
#[derive(Clone, Copy, Debug, PartialEq, Eq, Structural)]
pub struct Signal {
    /// The slot.
    pub slot: usize,
    /// The version of the slot when this handle last read or broadcast.
    pub seen: u64,
}

/// All the slots. Handles share a slot by holding the same index; a handle
/// whose index is out of range stands for a closed signal, on which a write
/// does nothing and a read finds nothing.
pub struct SignalPool {
    /// The slots by index.
    pub slots: Vec<SignalData>,
}

impl View for SignalPool {
    type V = Seq<SignalData>;

    open spec fn view(&self) -> Seq<SignalData> {
        self.slots@
    }
}

/// The version after one more write.
pub open spec fn next_version(v: u64) -> u64 {
    if v == u64::MAX {
        0
    } else {
        (v + 1) as u64
    }
}

/// The slots after `obj` was written to the slot `slot`.
pub open spec fn written(slots: Seq<SignalData>, slot: int, obj: Object) -> Seq<SignalData> {
    if 0 <= slot < slots.len() {
        slots.update(
            slot,
            SignalData { value: Some(obj), version: next_version(slots[slot].version) },
        )
    } else {
        slots
    }
}

/// Whether the handle `sig` has something to read in `slots`: its slot exists,
/// holds a value, and was written to since the handle last saw it.
pub open spec fn readable(slots: Seq<SignalData>, sig: Signal) -> bool {
    &&& 0 <= sig.slot < slots.len()
    &&& slots[sig.slot as int].value is Some
    &&& slots[sig.slot as int].version != sig.seen
}

/// What the handle `sig` reads from `slots`.
pub open spec fn read_value(slots: Seq<SignalData>, sig: Signal) -> Option<Object> {
    if readable(slots, sig) {
        slots[sig.slot as int].value
    } else {
        None
    }
}

/// The handle `sig` after it read from `slots`: it has seen the latest write.
pub open spec fn after_read(slots: Seq<SignalData>, sig: Signal) -> Signal {
    if readable(slots, sig) {
        Signal { slot: sig.slot, seen: slots[sig.slot as int].version }
    } else {
        sig
    }
}

/// The handle `sig` after it broadcast to `slots`: it has seen its own write.
pub open spec fn after_broadcast(slots: Seq<SignalData>, sig: Signal) -> Signal {
    if 0 <= sig.slot < slots.len() {
        Signal { slot: sig.slot, seen: next_version(slots[sig.slot as int].version) }
    } else {
        sig
    }
}

impl SignalPool {
    /// The pool without slots.
    pub fn new() -> (r: SignalPool)
        ensures
            r@ == Seq::<SignalData>::empty(),
    {
        SignalPool { slots: Vec::new() }
    }

    /// Adds an empty slot and returns a handle to it that has seen nothing
    /// missing: a poll finds nothing until somebody writes.
    pub fn create(&mut self) -> (r: Signal)
        ensures
            final(self)@ == old(self)@.push(SignalData { value: None, version: 0 }),
            r == (Signal { slot: old(self)@.len() as usize, seen: 0 }),
    {
        let slot = self.slots.len();
        self.slots.push(SignalData { value: None, version: 0 });
        Signal { slot, seen: 0 }
    }

    /// Whether the slot of `sig` exists.
    pub fn is_open(&self, sig: &Signal) -> (r: bool)
        ensures
            r == (sig.slot < self@.len()),
    {
        sig.slot < self.slots.len()
    }

    /// Writes `obj` to the slot of `sig`. Every handle to the slot, this one
    /// included, can read it afterwards.
    pub fn write(&mut self, sig: &Signal, obj: Object)
        ensures
            final(self)@ == written(old(self)@, sig.slot as int, obj),
    {
        if sig.slot < self.slots.len() {
            let version = self.slots[sig.slot].version;
            let next = if version == u64::MAX {
                0
            } else {
                version + 1
            };
            self.slots[sig.slot] = SignalData { value: Some(obj), version: next };
        }
    }

    /// Writes `obj` to the slot of `sig` and marks the write as seen by `sig`:
    /// every other handle to the slot can read it afterwards, this one cannot.
    pub fn broadcast(&mut self, sig: &mut Signal, obj: Object)
        ensures
            final(self)@ == written(old(self)@, old(sig).slot as int, obj),
            *final(sig) == after_broadcast(old(self)@, *old(sig)),
    {
        if sig.slot < self.slots.len() {
            let version = self.slots[sig.slot].version;
            let next = if version == u64::MAX {
                0
            } else {
                version + 1
            };
            self.slots[sig.slot] = SignalData { value: Some(obj), version: next };
            sig.seen = next;
        }
    }

    /// Reads the slot of `sig`: the latest value, if one was written since
    /// `sig` last saw the slot, and nothing otherwise. The value stays in the
    /// slot for the other handles.
    pub fn try_read(&self, sig: &mut Signal) -> (r: Option<Object>)
        ensures
            r == read_value(self@, *old(sig)),
            *final(sig) == after_read(self@, *old(sig)),
    {
        if sig.slot < self.slots.len() {
            let data = self.slots[sig.slot];
            if data.version != sig.seen {
                match data.value {
                    Some(obj) => {
                        sig.seen = data.version;
                        return Some(obj);
                    },
                    None => {},
                }
            }
        }
        None
    }
}

/// What is written is read once: after a write, a handle that was up to date
/// reads the value written, and right after that reads nothing.
pub proof fn lemma_write_then_read(slots: Seq<SignalData>, sig: Signal, obj: Object)
    requires
        0 <= sig.slot < slots.len(),
        sig.seen == slots[sig.slot as int].version,
    ensures
        read_value(written(slots, sig.slot as int, obj), sig) == Some(obj),
        read_value(
            written(slots, sig.slot as int, obj),
            after_read(written(slots, sig.slot as int, obj), sig),
        ) is None,
{
}

/// The handle that broadcasts does not read its own value; another handle to
/// the same slot that was up to date does.
pub proof fn lemma_broadcast_skips_sender(
    slots: Seq<SignalData>,
    sender: Signal,
    receiver: Signal,
    obj: Object,
)
    requires
        0 <= sender.slot < slots.len(),
        receiver.slot == sender.slot,
        receiver.seen == slots[sender.slot as int].version,
    ensures
        read_value(
            written(slots, sender.slot as int, obj),
            after_broadcast(slots, sender),
        ) is None,
        read_value(written(slots, sender.slot as int, obj), receiver) == Some(obj),
{
}

/// Only the latest value is kept: of two writes in a row, a handle that was
/// up to date before the first and polls after the second reads the second.
pub proof fn lemma_latest_value(slots: Seq<SignalData>, sig: Signal, first: Object, second: Object)
    requires
        0 <= sig.slot < slots.len(),
        sig.seen == slots[sig.slot as int].version,
        slots[sig.slot as int].version < u64::MAX - 1,
    ensures
        read_value(
            written(written(slots, sig.slot as int, first), sig.slot as int, second),
            sig,
        ) == Some(second),
{
}

} // verus!
