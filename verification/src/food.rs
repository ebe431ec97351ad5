//! Food collision, growth, and food spawning.

use vstd::prelude::*;

use crate::grid::ARENA_HEIGHT;
use crate::grid::ARENA_WIDTH;
use crate::grid::Position;
use crate::sim::Food;
use crate::sim::Simulation;

verus! {

/// The cells a spawn request may choose from: both bounds inclusive, so
/// one cell wider than the arena on each axis (a deliberate quirk of the
/// placement rule, off by one against the arena's half-open bounds).
pub open spec fn in_spawn_range(p: Position) -> bool {
    &&& 0 <= p.x <= ARENA_WIDTH
    &&& 0 <= p.y <= ARENA_HEIGHT
}

/// Relies on rand::random_range over `0..=bound`: it returns a uniformly
/// random value within the given range and panics only when the range is
/// empty.
#[verifier::external_body]
fn random_coordinate(bound: i32) -> (r: i32)
    requires
        0 <= bound,
    ensures
        0 <= r <= bound,
{
    rand::random_range(0..=bound)
}

impl Simulation {
    /// Whether the live food sits on the head's cell, the condition the
    /// collision check tests right after movement.
    pub open spec fn food_hit(self) -> bool {
        self.food is Some && self.food.unwrap().position == self.head_pos()
    }

    /// Whether a pending growth event will take effect: one must be
    /// queued and the tail-position cache must hold a value.
    pub open spec fn growth_accepted(self) -> bool {
        self.growth_events >= 1 && self.last_segment_pos is Some
    }

    /// Check head/food overlap. The food is destroyed and exactly one
    /// growth event is queued if and only if the head's position equals
    /// the food's position; nothing else changes either way.
    pub fn collision(&mut self)
        requires
            old(self).wf(),
            old(self).growth_events < u32::MAX,
        ensures
            final(self).wf(),
            final(self).food == (if old(self).food_hit() {
                None
            } else {
                old(self).food
            }),
            final(self).growth_events == old(self).growth_events + (if old(self).food_hit() {
                1int
            } else {
                0int
            }),
            final(self).positions@ == old(self).positions@,
            final(self).chain@ == old(self).chain@,
            final(self).head_dir == old(self).head_dir,
            final(self).committed_dir == old(self).committed_dir,
            final(self).last_segment_pos == old(self).last_segment_pos,
            final(self).spawn_requests == old(self).spawn_requests,
    {
        let head_handle = self.chain[0];
        let head_pos = self.positions[head_handle];
        let hit = match self.food {
            Some(f) => f.position.x == head_pos.x && f.position.y == head_pos.y,
            None => false,
        };
        if hit {
            self.food = None;
            self.growth_events = self.growth_events + 1;
        }
    }

    /// Drain the growth queue. If at least one growth event is pending
    /// and the tail-position cache holds a value, append one segment at
    /// that cached position and queue one food spawn request; a growth
    /// event pending while the cache is empty (no movement tick has run
    /// yet) is dropped, not retried. Either way the queue is left empty.
    pub fn growth_event(&mut self)
        requires
            old(self).wf(),
            old(self).spawn_requests < u32::MAX,
        ensures
            final(self).wf(),
            final(self).growth_events == 0,
            final(self).chain_len() == old(self).chain_len() + (if old(self).growth_accepted() {
                1int
            } else {
                0int
            }),
            forall|i: int|
                0 <= i < old(self).chain_len() ==> final(self).seg_pos(i) == old(self).seg_pos(i),
            old(self).growth_accepted() ==> final(self).seg_pos(old(self).chain_len() as int)
                == old(self).last_segment_pos.unwrap(),
            final(self).spawn_requests == old(self).spawn_requests + (if old(
                self,
            ).growth_accepted() {
                1int
            } else {
                0int
            }),
            final(self).head_dir == old(self).head_dir,
            final(self).committed_dir == old(self).committed_dir,
            final(self).last_segment_pos == old(self).last_segment_pos,
            final(self).food == old(self).food,
    {
        if self.growth_events >= 1 {
            match self.last_segment_pos {
                Some(pos) => {
                    self.spawn_segment(pos);
                    self.spawn_requests = self.spawn_requests + 1;
                },
                None => {},
            }
        }
        self.growth_events = 0;
    }

    /// Put the live food at `pos`, replacing any present. The rest of the
    /// state is untouched. Spawning never checks whether the cell is
    /// occupied by the snake; overlap is accepted.
    pub fn place_food(&mut self, pos: Position)
        requires
            old(self).wf(),
        ensures
            final(self).wf(),
            final(self).food == Some(Food { position: pos }),
            final(self).positions@ == old(self).positions@,
            final(self).chain@ == old(self).chain@,
            final(self).head_dir == old(self).head_dir,
            final(self).committed_dir == old(self).committed_dir,
            final(self).last_segment_pos == old(self).last_segment_pos,
            final(self).growth_events == old(self).growth_events,
            final(self).spawn_requests == old(self).spawn_requests,
    {
        self.food = Some(Food { position: pos });
    }

    /// Drain the spawn queue: each queued request places the food at a
    /// random cell within the inclusive spawn range. Afterwards the queue
    /// is empty, and the food is live whenever at least one request was
    /// pending.
    pub fn spawn_food_event(&mut self)
        requires
            old(self).wf(),
        ensures
            final(self).wf(),
            final(self).spawn_requests == 0,
            old(self).spawn_requests > 0 ==> final(self).food is Some && in_spawn_range(
                final(self).food.unwrap().position,
            ),
            old(self).spawn_requests == 0 ==> final(self).food == old(self).food,
            final(self).positions@ == old(self).positions@,
            final(self).chain@ == old(self).chain@,
            final(self).head_dir == old(self).head_dir,
            final(self).committed_dir == old(self).committed_dir,
            final(self).last_segment_pos == old(self).last_segment_pos,
            final(self).growth_events == old(self).growth_events,
    {
        let ghost pre = *self;
        while self.spawn_requests > 0
            invariant
                self.wf(),
                self.positions@ == pre.positions@,
                self.chain@ == pre.chain@,
                self.head_dir == pre.head_dir,
                self.committed_dir == pre.committed_dir,
                self.last_segment_pos == pre.last_segment_pos,
                self.growth_events == pre.growth_events,
                self.spawn_requests <= pre.spawn_requests,
                self.spawn_requests == pre.spawn_requests ==> self.food == pre.food,
                self.spawn_requests < pre.spawn_requests ==> self.food is Some && in_spawn_range(
                    self.food.unwrap().position,
                ),
            decreases self.spawn_requests,
        {
            let x = random_coordinate(ARENA_WIDTH);
            let y = random_coordinate(ARENA_HEIGHT);
            self.place_food(Position { x, y });
            self.spawn_requests = self.spawn_requests - 1;
        }
    }
}

} // verus!
