//! The simulation state and its invariant.

use vstd::prelude::*;

use crate::grid::Direction;
use crate::grid::Position;

verus! {

/// Number of food spawn requests queued at simulation start.
pub const INITIAL_FOOD_COUNT: u32 = 3;

/// The one live food item: at most one exists at a time. It is destroyed
/// when the head steps onto its cell and recreated by a spawn request.
#[derive(Clone, Copy, PartialEq, Eq, Structural, Debug)]
pub struct Food {
    pub position: Position,
}

/// The whole simulation state: an arena of entities addressed by small
/// integer handles, the chain of body segments (head first), the two
/// heading fields, the cached pre-move tail position, the live food, and
/// the two one-shot event queues (growth, food spawn) modelled as counts.
///
/// The fields are public so that contracts and tests can speak of them
/// directly; every method requires and preserves [`Simulation::wf`], and
/// only the methods keep that invariant.
pub struct Simulation {
    /// Arena: the position of each entity, indexed by its handle.
    pub positions: Vec<Position>,
    /// Entity handles of the body in movement order, head at index 0.
    /// Grows by one per accepted growth event and never shrinks.
    pub chain: Vec<usize>,
    /// The heading the movement engine will use next tick. Mutated by the
    /// input filter every frame.
    pub head_dir: Direction,
    /// The heading as of the most recent movement tick; the anti-reversal
    /// filter compares candidate input against its opposite.
    pub committed_dir: Direction,
    /// The tail's pre-move position from the most recent movement tick,
    /// or `None` before the first tick. A newly grown segment is placed
    /// here.
    pub last_segment_pos: Option<Position>,
    /// The live food, if any.
    pub food: Option<Food>,
    /// Pending growth events (food eaten, segment not yet appended).
    pub growth_events: u32,
    /// Pending food spawn requests.
    pub spawn_requests: u32,
}

impl Simulation {
    /// Number of body segments, head included.
    pub open spec fn chain_len(self) -> nat {
        self.chain@.len()
    }

    /// Position of the segment at chain index `i`.
    pub open spec fn seg_pos(self, i: int) -> Position {
        self.positions@[self.chain@[i] as int]
    }

    /// Position of the head (chain index 0).
    pub open spec fn head_pos(self) -> Position {
        self.seg_pos(0)
    }

    /// Well-formedness: the chain is never empty, every chain entry is a
    /// live arena handle, no handle occurs twice in the chain (so moving
    /// one segment never moves another), and the heading the movement
    /// engine will use is never the reverse of the last committed heading.
    pub open spec fn wf(self) -> bool {
        &&& self.chain@.len() >= 1
        &&& forall|i: int|
            0 <= i < self.chain@.len() ==> (#[trigger] self.chain@[i]) < self.positions@.len()
        &&& forall|i: int, j: int|
            0 <= i < j < self.chain@.len() ==> #[trigger] self.chain@[i] != #[trigger] self.chain@[j]
        &&& self.head_dir != self.committed_dir.opposite()
    }

    /// Create the starting state: the head at (3, 3) heading up, one body
    /// segment at (3, 2), no food yet, and the startup batch of food spawn
    /// requests queued.
    pub fn new() -> (s: Simulation)
        ensures
            s.wf(),
            s.chain_len() == 2,
            s.head_pos() == (Position { x: 3, y: 3 }),
            s.seg_pos(1) == (Position { x: 3, y: 2 }),
            s.head_dir == Direction::Up,
            s.committed_dir == Direction::Up,
            s.last_segment_pos is None,
            s.food is None,
            s.growth_events == 0,
            s.spawn_requests == INITIAL_FOOD_COUNT,
    {
        let mut positions: Vec<Position> = Vec::new();
        positions.push(Position { x: 3, y: 3 });
        positions.push(Position { x: 3, y: 2 });
        let mut chain: Vec<usize> = Vec::new();
        chain.push(0);
        chain.push(1);
        Simulation {
            positions,
            chain,
            head_dir: Direction::Up,
            committed_dir: Direction::Up,
            last_segment_pos: None,
            food: None,
            growth_events: 0,
            spawn_requests: INITIAL_FOOD_COUNT,
        }
    }

    /// Append one body segment at `pos` to the end of the chain, in a
    /// fresh arena slot, and return its handle. Positions of the existing
    /// segments and all other state are untouched.
    pub fn spawn_segment(&mut self, pos: Position) -> (handle: usize)
        requires
            old(self).wf(),
        ensures
            final(self).wf(),
            handle == old(self).positions@.len(),
            final(self).positions@ == old(self).positions@.push(pos),
            final(self).chain@ == old(self).chain@.push(handle),
            final(self).chain_len() == old(self).chain_len() + 1,
            forall|i: int|
                0 <= i < old(self).chain_len() ==> final(self).seg_pos(i) == old(self).seg_pos(i),
            final(self).seg_pos(old(self).chain_len() as int) == pos,
            final(self).head_dir == old(self).head_dir,
            final(self).committed_dir == old(self).committed_dir,
            final(self).last_segment_pos == old(self).last_segment_pos,
            final(self).food == old(self).food,
            final(self).growth_events == old(self).growth_events,
            final(self).spawn_requests == old(self).spawn_requests,
    {
        let handle = self.positions.len();
        self.positions.push(pos);
        self.chain.push(handle);
        handle
    }

    /// Whether this tick's movement will put the head onto the live food:
    /// the collision condition at the instant it is checked, right after
    /// movement.
    pub open spec fn tick_hit(self) -> bool {
        self.food is Some && self.food.unwrap().position == self.head_pos().stepped(self.head_dir)
    }

    /// Whether a food hit this tick will grow the chain: the tail cache
    /// filled by this tick's movement holds a value exactly when the chain
    /// has at least two entries.
    pub open spec fn tick_grows(self) -> bool {
        self.tick_hit() && self.chain_len() >= 2
    }

    /// One full fixed tick, in the order the scheduler guarantees:
    /// advance the chain and cache the pre-move tail position, check
    /// head/food overlap, apply a signalled growth, then serve queued food
    /// spawn requests.
    pub fn tick(&mut self)
        requires
            old(self).wf(),
            old(self).head_pos().can_step(old(self).head_dir),
            old(self).growth_events == 0,
            old(self).spawn_requests < u32::MAX,
        ensures
            final(self).wf(),
            // The heading used is committed; input has not run meanwhile.
            final(self).head_dir == old(self).head_dir,
            final(self).committed_dir == old(self).head_dir,
            // Movement: the head advances one cell and every follower
            // takes its predecessor's pre-tick cell.
            final(self).head_pos() == old(self).head_pos().stepped(old(self).head_dir),
            forall|i: int|
                1 <= i < old(self).chain_len() ==> final(self).seg_pos(i) == old(self).seg_pos(
                    i - 1,
                ),
            final(self).last_segment_pos == (if old(self).chain_len() >= 2 {
                Some(old(self).seg_pos(old(self).chain_len() - 1))
            } else {
                None::<Position>
            }),
            // Growth: the chain never shrinks and grows by exactly one
            // when the food was hit and the tail cache was filled.
            final(self).chain_len() == old(self).chain_len() + (if old(self).tick_grows() {
                1int
            } else {
                0int
            }),
            old(self).tick_grows() ==> final(self).seg_pos(old(self).chain_len() as int) == old(
                self,
            ).seg_pos(old(self).chain_len() - 1),
            // Both event queues are drained within the tick.
            final(self).growth_events == 0,
            final(self).spawn_requests == 0,
            // Food: a growth or a pending request leaves fresh food on the
            // board; food eaten with no request pending leaves none; no
            // hit and no request leaves it untouched.
            old(self).tick_grows() || old(self).spawn_requests > 0 ==> final(self).food is Some
                && crate::food::in_spawn_range(final(self).food.unwrap().position),
            old(self).tick_hit() && !old(self).tick_grows() && old(self).spawn_requests == 0
                ==> final(self).food is None,
            !old(self).tick_hit() && old(self).spawn_requests == 0 ==> final(self).food == old(
                self,
            ).food,
    {
        let ghost s0 = *self;
        self.snake_movement();
        let ghost s1 = *self;
        self.collision();
        let ghost s2 = *self;
        self.growth_event();
        let ghost s3 = *self;
        self.spawn_food_event();
        proof {
            assert forall|i: int| 1 <= i < s0.chain_len() implies self.seg_pos(i) == s0.seg_pos(
                i - 1,
            ) by {
                assert(s3.seg_pos(i) == s2.seg_pos(i));
                assert(s2.seg_pos(i) == s1.seg_pos(i));
                assert(s1.seg_pos(i) == s0.seg_pos(i - 1));
            }
            assert(self.seg_pos(0) == s3.seg_pos(0));
            assert(s3.seg_pos(0) == s2.seg_pos(0));
            if s0.tick_grows() {
                assert(self.seg_pos(s0.chain_len() as int) == s3.seg_pos(s0.chain_len() as int));
            }
        }
    }
}

/// Anti-reversal: in every well-formed state the heading the movement
/// engine will use never equals the reverse of the heading committed on
/// the most recent movement tick; the input filter and the movement tick
/// both preserve this.
pub proof fn lemma_anti_reversal(s: Simulation)
    requires
        s.wf(),
    ensures
        s.head_dir != s.committed_dir.opposite(),
{
}

} // verus!

