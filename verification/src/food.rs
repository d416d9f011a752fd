//! Timer-gated random placement of the single food item.

use vstd::prelude::*;

use crate::grid::Grid;
use crate::grid::GridPosition;
use crate::rng::random_below;
use crate::timer::IntervalTimer;

verus! {

/// Owns the repeating spawn timer. On each fire it places a food item on a
/// uniformly random cell, but only if none exists; the timer re-arms on
/// every fire either way. Placement may land on the snake's body: the
/// simulation deliberately does not check for overlap.
#[derive(Clone, Copy, PartialEq, Eq, Structural, Debug)]
pub struct FoodSpawner {
    pub timer: IntervalTimer,
}

impl FoodSpawner {
    /// A spawner whose timer fires every `period` time units.
    pub fn new(period: u64) -> (r: FoodSpawner)
        requires
            1 <= period,
        ensures
            r.timer@ == (crate::timer::TimerView { period: period as int, elapsed: 0 }),
            r.timer@.wf(),
    {
        FoodSpawner { timer: IntervalTimer::new(period) }
    }

    /// A uniformly random cell of the arena, each axis drawn independently.
    pub fn random_cell(grid: &Grid) -> (p: GridPosition)
        requires
            grid.wf(),
        ensures
            grid.spec_contains(p),
    {
        let x = random_below(grid.width);
        let y = random_below(grid.height);
        GridPosition { x: x as i32, y: y as i32 }
    }

    /// Advance the spawn timer by `delta` and return the food item that
    /// exists afterwards: a fresh random cell when the timer fired while no
    /// food existed, otherwise whatever was there before.
    pub fn tick(&mut self, delta: u64, grid: &Grid, food: Option<GridPosition>) -> (r: Option<
        GridPosition,
    >)
        requires
            grid.wf(),
            old(self).timer@.wf(),
            delta <= u64::MAX - old(self).timer.elapsed,
            food matches Some(p) ==> grid.spec_contains(p),
        ensures
            final(self).timer@ == old(self).timer@.ticked(delta as int),
            final(self).timer@.wf(),
            old(self).timer@.fires(delta as int) && food is None ==> r is Some,
            !(old(self).timer@.fires(delta as int) && food is None) ==> r == food,
            r matches Some(p) ==> grid.spec_contains(p),
    {
        let fired = self.timer.tick(delta);
        if fired && food.is_none() {
            Some(Self::random_cell(grid))
        } else {
            food
        }
    }
}

} // verus!
