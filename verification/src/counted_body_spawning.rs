use vstd::prelude::*;

use crate::text::decimal;
use crate::text::push_decimal;

verus! {

/// Bodies per grid row and rows per layer.
pub const GRID_WIDTH: usize = 10;
/// Bodies per horizontal layer of the spawning grid.
pub const LAYER_CAPACITY: usize = 100;

/// Where the n-th counted body is placed: a column and row of a ten-by-ten grid,
/// stacked in layers of a hundred.
#[derive(Clone, Copy, Debug, PartialEq, Eq, Structural)]
pub struct GridSlot {
    pub index: usize,
    pub column: usize,
    pub row: usize,
    pub layer: usize,
}

pub open spec fn slot_spec(index: usize) -> GridSlot {
    GridSlot {
        index,
        column: (index % GRID_WIDTH) as usize,
        row: ((index / GRID_WIDTH) % GRID_WIDTH) as usize,
        layer: (index / LAYER_CAPACITY) as usize,
    }
}

/// The grid slot of the body with the given spawn index.
pub fn grid_slot(index: usize) -> (slot: GridSlot)
    ensures
        slot == slot_spec(index),
{
    GridSlot {
        index,
        column: index % GRID_WIDTH,
        row: (index / GRID_WIDTH) % GRID_WIDTH,
        layer: index / LAYER_CAPACITY,
    }
}

/// The slot's coordinates spell the index back, so no two counted bodies share a slot.
pub proof fn lemma_slots_are_distinct(a: usize, b: usize)
    ensures
        slot_spec(a).layer * 100 + slot_spec(a).row * 10 + slot_spec(a).column == a,
        slot_spec(a).column < 10 && slot_spec(a).row < 10,
        a != b ==> (slot_spec(a).column, slot_spec(a).row, slot_spec(a).layer) != (
        slot_spec(b).column,
        slot_spec(b).row,
        slot_spec(b).layer,
        ),
{
    assert(a == (a / 10) * 10 + a % 10) by (nonlinear_arith);
    assert(a / 10 == ((a / 10) / 10) * 10 + (a / 10) % 10) by (nonlinear_arith);
    assert((a / 10) / 10 == a / 100) by (nonlinear_arith);
    assert(b == (b / 10) * 10 + b % 10) by (nonlinear_arith);
    assert(b / 10 == ((b / 10) / 10) * 10 + (b / 10) % 10) by (nonlinear_arith);
    assert((b / 10) / 10 == b / 100) by (nonlinear_arith);
}

/// The number of counted bodies spawned since the last clear.
#[derive(Clone, Copy, Debug, PartialEq, Eq, Structural)]
pub struct SpawnedBodyCount {
    pub count: usize,
}

/// The controls of the stress-test station.
#[derive(Clone, Copy, Debug, PartialEq, Eq, Structural)]
pub enum CountedBodyControl {
    Spawn(usize),
    Clear,
}

impl SpawnedBodyCount {
    /// No body spawned yet.
    pub fn new() -> (counter: SpawnedBodyCount)
        ensures
            counter.count == 0,
    {
        SpawnedBodyCount { count: 0 }
    }

    /// Allocates the slots of `count` new bodies, numbered after those already spawned.
    pub fn spawn_batch(&mut self, count: usize) -> (slots: Vec<GridSlot>)
        requires
            old(self).count + count <= usize::MAX,
        ensures
            final(self).count == old(self).count + count,
            slots@.len() == count,
            forall|i: int| 0 <= i < count ==> #[trigger] slots@[i] == slot_spec((old(self).count + i) as usize),
    {
        let mut slots: Vec<GridSlot> = Vec::new();
        let mut i: usize = 0;
        while i < count
            invariant
                0 <= i <= count,
                old(self).count + count <= usize::MAX,
                self.count == old(self).count + i,
                slots@.len() == i,
                forall|j: int| 0 <= j < i ==> #[trigger] slots@[j] == slot_spec((old(self).count + j) as usize),
            decreases count - i,
        {
            slots.push(grid_slot(self.count));
            self.count = self.count + 1;
            i = i + 1;
        }
        slots
    }

    /// Forgets every spawned body; the next one is numbered zero again.
    pub fn clear(&mut self)
        ensures
            final(self).count == 0,
    {
        self.count = 0;
    }
}

/// The spawn sizes offered by the station, in button order.
pub fn spawn_counts() -> (counts: Vec<usize>)
    ensures
        counts@ == seq![10usize, 100usize, 500usize, 1000usize],
{
    let counts = vec![10, 100, 500, 1000];
    proof {
        assert(counts@ =~= seq![10usize, 100usize, 500usize, 1000usize]);
    }
    counts
}

/// The name of the counted body with the given index: `Counted Stress Body <index>`.
pub fn counted_body_name(index: usize) -> (name: String)
    ensures
        name@ == "Counted Stress Body "@ + decimal(index as nat),
{
    let mut name = String::from_str("Counted Stress Body ");
    push_decimal(&mut name, index as u64);
    name
}

/// The text of a spawn button: `spawn <count>`.
pub fn spawn_button_label(count: usize) -> (label: String)
    ensures
        label@ == "spawn "@ + decimal(count as nat),
{
    let mut label = String::from_str("spawn ");
    push_decimal(&mut label, count as u64);
    label
}

} // verus!
