//! Input resolution and the fixed-tick movement engine.

use vstd::prelude::*;

use crate::grid::Direction;
use crate::grid::Position;
use crate::sim::Simulation;

verus! {

/// The candidate heading read from the four directional keys: the pressed
/// direction, with priority up > down > left > right when several keys are
/// held at once, or `None` when no directional key is pressed.
pub open spec fn candidate_spec(up: bool, down: bool, left: bool, right: bool) -> Option<
    Direction,
> {
    if up {
        Some(Direction::Up)
    } else if down {
        Some(Direction::Down)
    } else if left {
        Some(Direction::Left)
    } else if right {
        Some(Direction::Right)
    } else {
        None
    }
}

/// Map the four key states to the candidate heading.
#[verifier::when_used_as_spec(candidate_spec)]
pub fn candidate(up: bool, down: bool, left: bool, right: bool) -> (r: Option<Direction>)
    ensures
        r == candidate_spec(up, down, left, right),
{
    if up {
        Some(Direction::Up)
    } else if down {
        Some(Direction::Down)
    } else if left {
        Some(Direction::Left)
    } else if right {
        Some(Direction::Right)
    } else {
        None
    }
}

impl Simulation {
    /// The heading after one application of the input filter to the four
    /// key states: no key pressed leaves the heading unchanged; a pressed
    /// direction is committed exactly when it is not the reverse of the
    /// heading committed on the most recent movement tick.
    pub open spec fn resolved_dir(self, up: bool, down: bool, left: bool, right: bool) -> Direction {
        match candidate_spec(up, down, left, right) {
            Some(d) => if d == self.committed_dir.opposite() {
                self.head_dir
            } else {
                d
            },
            None => self.head_dir,
        }
    }

    /// Apply one frame of directional input. Only the heading the movement
    /// engine will use can change; a request to reverse straight onto the
    /// body is rejected and every other request is accepted.
    pub fn snake_input(&mut self, up: bool, down: bool, left: bool, right: bool)
        requires
            old(self).wf(),
        ensures
            final(self).wf(),
            final(self).head_dir == old(self).resolved_dir(up, down, left, right),
            final(self).head_dir != old(self).committed_dir.opposite(),
            final(self).committed_dir == old(self).committed_dir,
            final(self).positions@ == old(self).positions@,
            final(self).chain@ == old(self).chain@,
            final(self).last_segment_pos == old(self).last_segment_pos,
            final(self).food == old(self).food,
            final(self).growth_events == old(self).growth_events,
            final(self).spawn_requests == old(self).spawn_requests,
    {
        match candidate(up, down, left, right) {
            Some(dir) => {
                if dir != self.committed_dir.opposite() {
                    self.head_dir = dir;
                }
            },
            None => {},
        }
    }

    /// One movement tick: displace the head one cell along its heading and
    /// shift every trailing segment into the cell its predecessor held
    /// before this tick; cache the pre-move tail position for a possible
    /// growth this cycle and commit the heading that was used.
    pub fn snake_movement(&mut self)
        requires
            old(self).wf(),
            old(self).head_pos().can_step(old(self).head_dir),
        ensures
            final(self).wf(),
            final(self).chain@ == old(self).chain@,
            final(self).positions@.len() == old(self).positions@.len(),
            final(self).head_pos() == old(self).head_pos().stepped(old(self).head_dir),
            forall|i: int|
                1 <= i < old(self).chain_len() ==> final(self).seg_pos(i) == old(self).seg_pos(
                    i - 1,
                ),
            final(self).committed_dir == old(self).head_dir,
            final(self).head_dir == old(self).head_dir,
            final(self).last_segment_pos == (if old(self).chain_len() >= 2 {
                Some(old(self).seg_pos(old(self).chain_len() - 1))
            } else {
                None::<Position>
            }),
            final(self).food == old(self).food,
            final(self).growth_events == old(self).growth_events,
            final(self).spawn_requests == old(self).spawn_requests,
    {
        let ghost pre = *self;

        // Snapshot the position of every chain entry, in chain order,
        // before anything moves.
        let mut snapshot: Vec<Position> = Vec::new();
        let mut i: usize = 0;
        while i < self.chain.len()
            invariant
                *self == pre,
                pre.wf(),
                i <= pre.chain@.len(),
                snapshot@.len() == i,
                forall|k: int| 0 <= k < i ==> snapshot@[k] == pre.seg_pos(k),
            decreases pre.chain@.len() - i,
        {
            let handle = self.chain[i];
            snapshot.push(self.positions[handle]);
            i += 1;
        }

        // Displace the head one cell along its heading.
        let head_handle = self.chain[0];
        let new_head_pos = self.positions[head_handle].step(self.head_dir);
        self.positions[head_handle] = new_head_pos;

        // Commit the heading used and cache the pre-move tail position.
        self.committed_dir = self.head_dir;
        self.last_segment_pos = if self.chain.len() >= 2 {
            Some(snapshot[self.chain.len() - 1])
        } else {
            None
        };

        // Each trailing segment takes the cell its predecessor held
        // before this tick's head move.
        let mut j: usize = 1;
        while j < self.chain.len()
            invariant
                pre.wf(),
                self.chain@ == pre.chain@,
                self.positions@.len() == pre.positions@.len(),
                1 <= j <= pre.chain@.len(),
                snapshot@.len() == pre.chain@.len(),
                forall|k: int| 0 <= k < snapshot@.len() ==> snapshot@[k] == pre.seg_pos(k),
                self.positions@[pre.chain@[0] as int] == pre.head_pos().stepped(pre.head_dir),
                forall|k: int|
                    1 <= k < j ==> self.positions@[#[trigger] pre.chain@[k] as int] == pre.seg_pos(
                        k - 1,
                    ),
                forall|k: int|
                    j <= k < pre.chain@.len() ==> self.positions@[
                        #[trigger] pre.chain@[k] as int
                    ] == pre.seg_pos(k),
                self.head_dir == pre.head_dir,
                self.committed_dir == pre.head_dir,
                self.last_segment_pos == (if pre.chain_len() >= 2 {
                    Some(pre.seg_pos(pre.chain_len() - 1))
                } else {
                    None::<Position>
                }),
                self.food == pre.food,
                self.growth_events == pre.growth_events,
                self.spawn_requests == pre.spawn_requests,
            decreases pre.chain@.len() - j,
        {
            let seg_handle = self.chain[j];
            proof {
                // No handle occurs twice in the chain, so this write moves
                // exactly the segment at chain index j.
                assert(forall|k: int|
                    0 <= k < pre.chain@.len() && k != j ==> pre.chain@[k] != pre.chain@[j as int]);
            }
            self.positions[seg_handle] = snapshot[j - 1];
            j += 1;
        }
        proof {
            assert forall|i: int| 1 <= i < pre.chain@.len() implies self.seg_pos(i) == pre.seg_pos(
                i - 1,
            ) by {
                assert(self.chain@[i] == pre.chain@[i]);
            }
            assert(self.seg_pos(0) == self.positions@[pre.chain@[0] as int]);
        }
    }
}

} // verus!
