//! Exclusive ownership of physical pin indices: a per-port lock table that
//! grants revocable single-pin capabilities, either one at a time or as an
//! all-or-nothing batch.

use vstd::prelude::*;

use crate::error::Error;
pub use crate::pin_set::PIN_COUNT;

use crate::pin_set::PinSet;
use crate::pin_set::pin_set_contains;
use crate::pin_set::pin_set_contents;
use crate::pin_set::pin_set_insert;
use crate::pin_set::pin_set_new;
use crate::pin_set::pin_set_remove;
use crate::protocol::Command;
use crate::transport::Transport;

verus! {

/// An exclusive, revocable capability over one physical pin index. Only
/// the registry creates these, and handing one back to
/// [`PinRegistry::release`] is the only way to free its index.
#[derive(Debug)]
pub struct Pin {
    index: usize,
}

impl Pin {
    /// The pin index this capability controls.
    pub closed spec fn idx(&self) -> usize {
        self.index
    }

    /// Every capability the registry hands out is in range.
    pub open spec fn wf(&self) -> bool {
        self.idx() < PIN_COUNT
    }

    /// The pin index this capability controls.
    pub fn index(&self) -> (r: usize)
        ensures
            r == self.idx(),
    {
        self.index
    }

    /// Drives the pin high or low by queueing the matching GPIO command.
    pub fn output(&self, transport: &mut Transport, value: bool)
        requires
            self.wf(),
        ensures
            final(transport).out_bytes() == old(transport).out_bytes() + (if value {
                Command::GpioHigh(self.idx() as u8)
            } else {
                Command::GpioLow(self.idx() as u8)
            }).encoding(),
            final(transport).in_bytes() == old(transport).in_bytes(),
    {
        if value {
            transport.write_command(Command::GpioHigh(self.index as u8));
        } else {
            transport.write_command(Command::GpioLow(self.index as u8));
        }
    }

    /// Drives the pin high.
    pub fn high(&self, transport: &mut Transport)
        requires
            self.wf(),
        ensures
            final(transport).out_bytes() == old(transport).out_bytes() + Command::GpioHigh(
                self.idx() as u8,
            ).encoding(),
            final(transport).in_bytes() == old(transport).in_bytes(),
    {
        self.output(transport, true);
    }

    /// Drives the pin low.
    pub fn low(&self, transport: &mut Transport)
        requires
            self.wf(),
        ensures
            final(transport).out_bytes() == old(transport).out_bytes() + Command::GpioLow(
                self.idx() as u8,
            ).encoding(),
            final(transport).in_bytes() == old(transport).in_bytes(),
    {
        self.output(transport, false);
    }
}

/// What acquiring a list of indices does to a lock table, walked from the
/// front: the first out-of-range or already-locked index decides the
/// error, and a clean walk yields the lock table with every index added.
pub open spec fn acquire_set_outcome(locked: Set<usize>, indices: Seq<usize>) -> Result<
    Set<usize>,
    Error,
>
    decreases indices.len(),
{
    if indices.len() == 0 {
        Ok(locked)
    } else {
        let i = indices[0];
        if i >= PIN_COUNT {
            Err(Error::PinOutOfRange { index: i })
        } else if locked.contains(i) {
            Err(Error::PinBusy { index: i })
        } else {
            acquire_set_outcome(locked.insert(i), indices.skip(1))
        }
    }
}

/// A list of in-range, unlocked, pairwise-distinct indices acquires
/// cleanly.
pub proof fn lemma_acquire_set_outcome_ok(locked: Set<usize>, indices: Seq<usize>)
    requires
        forall|j: int| 0 <= j < indices.len() ==> indices[j] < PIN_COUNT,
        forall|j: int| 0 <= j < indices.len() ==> !locked.contains(#[trigger] indices[j]),
        forall|j1: int, j2: int| 0 <= j1 < j2 < indices.len() ==> indices[j1] != indices[j2],
    ensures
        acquire_set_outcome(locked, indices) is Ok,
    decreases indices.len(),
{
    if indices.len() > 0 {
        let head = indices[0];
        let rest = indices.skip(1);
        assert forall|j: int| 0 <= j < rest.len() implies !locked.insert(head).contains(
            #[trigger] rest[j],
        ) by {
            assert(rest[j] == indices[j + 1]);
        }
        lemma_acquire_set_outcome_ok(locked.insert(head), rest);
    }
}

/// The per-port table of pin lock states. At most one live [`Pin`]
/// capability holds a given index at any time.
pub struct PinRegistry {
    locked: PinSet,
}

impl PinRegistry {
    /// The set of pin indices currently held by live capabilities.
    pub closed spec fn locked_set(&self) -> Set<usize> {
        pin_set_contents(self.locked)
    }

    /// A registry with every pin index available.
    pub fn new() -> (r: PinRegistry)
        ensures
            r.locked_set() == Set::<usize>::empty(),
    {
        PinRegistry { locked: pin_set_new() }
    }

    /// Whether the given index is currently held.
    pub fn is_locked(&self, index: usize) -> (r: bool)
        ensures
            r == self.locked_set().contains(index),
    {
        pin_set_contains(&self.locked, index)
    }

    /// Locks one pin index and hands out the capability over it. Fails
    /// with [`Error::PinOutOfRange`] for an index outside the valid set
    /// and with [`Error::PinBusy`] for one already held; either failure
    /// leaves the table unchanged. Acquisition never blocks: a held
    /// index fails immediately, and the caller decides whether to retry.
    pub fn acquire(&mut self, index: usize) -> (r: Result<Pin, Error>)
        ensures
            index >= PIN_COUNT ==> {
                &&& r == Err::<Pin, Error>(Error::PinOutOfRange { index })
                &&& final(self).locked_set() == old(self).locked_set()
            },
            index < PIN_COUNT && old(self).locked_set().contains(index) ==> {
                &&& r == Err::<Pin, Error>(Error::PinBusy { index })
                &&& final(self).locked_set() == old(self).locked_set()
            },
            index < PIN_COUNT && !old(self).locked_set().contains(index) ==> {
                &&& r is Ok
                &&& r->Ok_0.idx() == index
                &&& final(self).locked_set() == old(self).locked_set().insert(index)
            },
    {
        if index >= PIN_COUNT {
            return Err(Error::PinOutOfRange { index });
        }
        if pin_set_contains(&self.locked, index) {
            return Err(Error::PinBusy { index });
        }
        let _ = pin_set_insert(&mut self.locked, index);
        Ok(Pin { index })
    }

    /// Unlocks the index held by the given capability, making it
    /// acquirable again. Consuming the capability is what revokes it.
    pub fn release(&mut self, pin: Pin)
        ensures
            final(self).locked_set() == old(self).locked_set().remove(pin.idx()),
    {
        let _ = pin_set_remove(&mut self.locked, pin.index);
    }

    /// Locks an ordered list of indices as one atomic unit and hands out
    /// the capabilities in the same order. If any index is out of range,
    /// already held, or repeated in the list, every index locked during
    /// the attempt is released again and the table is left exactly as it
    /// was.
    pub fn acquire_set(&mut self, indices: &[usize]) -> (r: Result<Vec<Pin>, Error>)
        ensures
            match r {
                Ok(pins) => {
                    &&& acquire_set_outcome(old(self).locked_set(), indices@) == Ok::<
                        Set<usize>,
                        Error,
                    >(final(self).locked_set())
                    &&& pins@.len() == indices@.len()
                    &&& forall|j: int|
                        0 <= j < indices@.len() ==> (#[trigger] pins@[j]).idx() == indices@[j]
                    &&& forall|j: int| 0 <= j < indices@.len() ==> (#[trigger] pins@[j]).wf()
                    &&& forall|j: int|
                        0 <= j < indices@.len() ==> !old(self).locked_set().contains(
                            #[trigger] indices@[j],
                        )
                    &&& forall|x: usize|
                        #![trigger final(self).locked_set().contains(x)]
                        #![trigger old(self).locked_set().contains(x)]
                        #![trigger indices@.contains(x)]
                        final(self).locked_set().contains(x) <==> (old(
                            self,
                        ).locked_set().contains(x) || indices@.contains(x))
                },
                Err(e) => {
                    &&& acquire_set_outcome(old(self).locked_set(), indices@) == Err::<
                        Set<usize>,
                        Error,
                    >(e)
                    &&& final(self).locked_set() == old(self).locked_set()
                },
            },
    {
        let mut pins: Vec<Pin> = Vec::new();
        let mut k: usize = 0;
        assert(indices@.skip(0) =~= indices@);
        while k < indices.len()
            invariant
                k <= indices@.len(),
                pins@.len() == k,
                forall|j: int| 0 <= j < k ==> (#[trigger] pins@[j]).idx() == indices@[j],
                forall|j: int| 0 <= j < k ==> (#[trigger] indices@[j]) < PIN_COUNT,
                forall|j: int|
                    0 <= j < k ==> !old(self).locked_set().contains(#[trigger] indices@[j]),
                forall|j1: int, j2: int| 0 <= j1 < j2 < k ==> indices@[j1] != indices@[j2],
                acquire_set_outcome(old(self).locked_set(), indices@) == acquire_set_outcome(
                    self.locked_set(),
                    indices@.skip(k as int),
                ),
                forall|x: usize|
                    self.locked_set().contains(x) <==> (old(self).locked_set().contains(x)
                        || exists|j: int| 0 <= j < k && indices@[j] == x),
            decreases indices@.len() - k,
        {
            let ghost rest = indices@.skip(k as int);
            assert(rest[0] == indices@[k as int]);
            assert(rest.skip(1) =~= indices@.skip(k + 1));
            let idx = indices[k];
            match self.acquire(idx) {
                Ok(pin) => {
                    proof {
                        assert(indices@.contains(idx)) by {
                            assert(indices@[k as int] == idx);
                        }
                    }
                    pins.push(pin);
                    k += 1;
                }
                Err(e) => {
                    // Roll back: release every index locked during this
                    // attempt, newest first.
                    while pins.len() > 0
                        invariant
                            pins@.len() <= k <= indices@.len(),
                            forall|j: int|
                                0 <= j < pins@.len() ==> (#[trigger] pins@[j]).idx()
                                    == indices@[j],
                            forall|j: int|
                                0 <= j < k ==> !old(self).locked_set().contains(
                                    #[trigger] indices@[j],
                                ),
                            forall|j1: int, j2: int|
                                0 <= j1 < j2 < k ==> indices@[j1] != indices@[j2],
                            forall|x: usize|
                                self.locked_set().contains(x) <==> (old(
                                    self,
                                ).locked_set().contains(x) || exists|j: int|
                                    0 <= j < pins@.len() && indices@[j] == x),
                        decreases pins@.len(),
                    {
                        let ghost m = pins@.len() as int;
                        let pin = pins.pop().unwrap();
                        assert(pin.idx() == indices@[m - 1]);
                        self.release(pin);
                        assert forall|x: usize| self.locked_set().contains(x) <==> (old(
                            self,
                        ).locked_set().contains(x) || exists|j: int|
                            0 <= j < pins@.len() && indices@[j] == x) by {
                            if x == indices@[m - 1] {
                                assert(!old(self).locked_set().contains(x));
                                assert(forall|j: int|
                                    0 <= j < m - 1 ==> (#[trigger] indices@[j]) != indices@[m
                                        - 1]);
                            }
                        }
                    }
                    assert(self.locked_set() =~= old(self).locked_set());
                    return Err(e);
                }
            }
        }
        assert(indices@.skip(k as int) =~= Seq::<usize>::empty());
        assert(acquire_set_outcome(self.locked_set(), Seq::<usize>::empty()) == Ok::<
            Set<usize>,
            Error,
        >(self.locked_set()));
        Ok(pins)
    }
}

} // verus!
