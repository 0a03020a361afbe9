//! The mutable environment a call runs against.
//!
//! The dispatcher itself never interprets this state; it only hands it,
//! explicitly and by exclusive reference, to whichever implementation runs
//! the call. The hosted program reads the current position (block number and
//! extrinsic index) and records events. Passing the environment explicitly
//! replaces the ambient per-call context installation of a host process: a
//! call can only reach the environment it was given, so a fault in one call
//! can never leave a stale context behind for the next one.

use vstd::prelude::*;

verus! {

/// A point in the history of the environment: the block being built and the
/// index of the current call within it.
#[derive(Clone, Copy, Debug, PartialEq, Eq, Structural)]
pub struct Timepoint {
    /// The block number.
    pub height: u64,
    /// The index of the call within the block.
    pub index: u32,
}

/// The environment object: the state one call reads and writes.
#[derive(Debug)]
pub struct Externalities {
    block_number: u64,
    extrinsic_index: u32,
    events: Vec<Vec<u8>>,
}

/// Mathematical model of an [`Externalities`] value.
pub struct ExternalitiesView {
    /// The block number.
    pub block_number: u64,
    /// The index of the current call within the block.
    pub extrinsic_index: u32,
    /// Every event recorded so far, oldest first, as encoded bytes.
    pub events: Seq<Seq<u8>>,
}

impl View for Externalities {
    type V = ExternalitiesView;

    closed spec fn view(&self) -> ExternalitiesView {
        ExternalitiesView {
            block_number: self.block_number,
            extrinsic_index: self.extrinsic_index,
            events: self.events@.map_values(|e: Vec<u8>| e@),
        }
    }
}

impl Externalities {
    /// A fresh environment: block number zero, call index zero, no events.
    pub fn new() -> (r: Externalities)
        ensures
            r@.block_number == 0,
            r@.extrinsic_index == 0,
            r@.events == Seq::<Seq<u8>>::empty(),
    {
        let r = Externalities { block_number: 0, extrinsic_index: 0, events: Vec::new() };
        proof {
            assert(r@.events =~= Seq::<Seq<u8>>::empty());
        }
        r
    }

    /// The number of the block being built.
    pub fn block_number(&self) -> (r: u64)
        ensures
            r == self@.block_number,
    {
        self.block_number
    }

    /// Moves the environment to the given block number.
    pub fn set_block_number(&mut self, n: u64)
        ensures
            final(self)@ == (ExternalitiesView { block_number: n, ..old(self)@ }),
    {
        self.block_number = n;
    }

    /// The index of the current call within the block.
    pub fn extrinsic_index(&self) -> (r: u32)
        ensures
            r == self@.extrinsic_index,
    {
        self.extrinsic_index
    }

    /// Sets the index of the current call within the block.
    pub fn set_extrinsic_index(&mut self, i: u32)
        ensures
            final(self)@ == (ExternalitiesView { extrinsic_index: i, ..old(self)@ }),
    {
        self.extrinsic_index = i;
    }

    /// Records one event, after every event recorded so far.
    pub fn deposit_event(&mut self, event: Vec<u8>)
        ensures
            final(self)@ == (ExternalitiesView {
                events: old(self)@.events.push(event@),
                ..old(self)@
            }),
    {
        let ghost pre = self@.events;
        self.events.push(event);
        proof {
            assert(self@.events =~= pre.push(event@));
        }
    }

    /// How many events have been recorded.
    pub fn event_count(&self) -> (r: usize)
        ensures
            r == self@.events.len(),
    {
        self.events.len()
    }

    /// The event at position `i`, oldest first.
    pub fn event_at(&self, i: usize) -> (r: &Vec<u8>)
        requires
            i < self@.events.len(),
        ensures
            r@ == self@.events[i as int],
    {
        &self.events[i]
    }
}

} // verus!
