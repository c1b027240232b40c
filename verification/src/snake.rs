//! The snake's grid state and the timer-gated movement engine.

use vstd::prelude::*;

use crate::grid::{can_step_coord, step_coord, step_dx, step_dy, stepped, Direction, GridCoordinate};
use crate::timer::IntervalTimer;

verus! {

/// The lead segment: a grid cell plus the active movement direction.
#[derive(Clone, Copy, PartialEq, Eq, Structural, Debug)]
pub struct Head {
    pub position: GridCoordinate,
    pub direction: Direction,
}

/// One trailing segment of the chain. Order in the containing sequence
/// reflects spawn order.
#[derive(Clone, Copy, PartialEq, Eq, Structural, Debug)]
pub struct BodyPart {
    pub position: GridCoordinate,
}

/// The snake: exactly one head, an ordered chain of body parts, and the
/// repeating timer that gates movement. It is the single authoritative
/// grid state; projection only ever reads it.
#[derive(Debug)]
pub struct Snake {
    pub head: Head,
    pub body: Vec<BodyPart>,
    pub timer: IntervalTimer,
}

/// Whether every segment of `s` can take one step in the head's direction
/// without leaving the machine range of a coordinate.
pub open spec fn can_step(s: Snake) -> bool {
    &&& can_step_coord(s.head.position, s.head.direction)
    &&& forall|i: int|
        0 <= i < s.body@.len() ==> can_step_coord(
            (#[trigger] s.body@[i]).position,
            s.head.direction,
        )
}

/// Whether `post` is `pre` with every segment — head and each body part —
/// translated by exactly one step in `pre`'s direction: a rigid translation
/// of the whole chain.
pub open spec fn step_applied(pre: Snake, post: Snake) -> bool {
    &&& stepped(pre.head.position, post.head.position, pre.head.direction)
    &&& post.body@.len() == pre.body@.len()
    &&& forall|i: int|
        #![trigger pre.body@[i]]
        #![trigger post.body@[i]]
        0 <= i < pre.body@.len() ==> stepped(
            pre.body@[i].position,
            post.body@[i].position,
            pre.head.direction,
        )
}

/// Whether `post` holds exactly the grid state of `pre`: the head's cell
/// and the whole body chain are unchanged.
pub open spec fn positions_unchanged(pre: Snake, post: Snake) -> bool {
    &&& post.head.position == pre.head.position
    &&& post.body@ == pre.body@
}

/// What one call of [`Snake::tick`] does: the direction and the interval
/// configuration are never touched; if the accumulated duration reaches the
/// interval, one interval's worth is consumed and one rigid movement step
/// is applied, otherwise the accumulator grows and no grid state changes.
pub open spec fn tick_rel(pre: Snake, post: Snake, delta_ms: u64) -> bool {
    &&& post.head.direction == pre.head.direction
    &&& post.timer.interval_ms == pre.timer.interval_ms
    &&& if pre.timer.fires(delta_ms) {
        &&& post.timer.elapsed_ms == pre.timer.elapsed_ms + delta_ms - pre.timer.interval_ms
        &&& step_applied(pre, post)
    } else {
        &&& post.timer.elapsed_ms == pre.timer.elapsed_ms + delta_ms
        &&& positions_unchanged(pre, post)
    }
}

impl Snake {
    /// Spawn a snake with the given head, body chain and movement interval;
    /// the timer starts with no accumulated progress.
    pub fn new(head: Head, body: Vec<BodyPart>, interval_ms: u64) -> (s: Snake)
        ensures
            s.head == head,
            s.body@ == body@,
            s.timer.interval_ms == interval_ms,
            s.timer.elapsed_ms == 0,
    {
        Snake { head, body, timer: IntervalTimer::new(interval_ms) }
    }

    /// Advance the simulation by `delta_ms` milliseconds of wall-clock time.
    /// When the accumulated duration reaches the interval, exactly one
    /// movement step occurs: the head and every body part are translated by
    /// the same per-axis delta resolved from the head's direction. Below
    /// the interval this is a pure accumulation and mutates no grid state.
    pub fn tick(&mut self, delta_ms: u64)
        requires
            old(self).timer.elapsed_ms + delta_ms <= u64::MAX,
            old(self).timer.fires(delta_ms) ==> can_step(*old(self)),
        ensures
            tick_rel(*old(self), *final(self), delta_ms),
    {
        let fired = self.timer.advance(delta_ms);
        if fired {
            let dir = self.head.direction;
            self.head.position = step_coord(self.head.position, dir);
            let mut i: usize = 0;
            while i < self.body.len()
                invariant
                    i <= self.body@.len(),
                    self.body@.len() == old(self).body@.len(),
                    dir == old(self).head.direction,
                    can_step(*old(self)),
                    self.head.direction == old(self).head.direction,
                    stepped(old(self).head.position, self.head.position, dir),
                    self.timer.interval_ms == old(self).timer.interval_ms,
                    self.timer.elapsed_ms == old(self).timer.elapsed_ms + delta_ms
                        - old(self).timer.interval_ms,
                    forall|j: int|
                        0 <= j < i ==> stepped(
                            (#[trigger] old(self).body@[j]).position,
                            self.body@[j].position,
                            dir,
                        ),
                    forall|j: int|
                        i <= j < self.body@.len() ==> (#[trigger] self.body@[j])
                            == old(self).body@[j],
                decreases self.body@.len() - i,
            {
                let p = self.body[i].position;
                self.body[i] = BodyPart { position: step_coord(p, dir) };
                i += 1;
            }
        }
    }
}

/// Rigid-translation law: on a firing tick the head moves by exactly one
/// per-axis direction delta, and every body part's offset from the head is
/// the same after the tick as before it.
pub proof fn lemma_rigid_translation(pre: Snake, post: Snake, delta_ms: u64)
    requires
        tick_rel(pre, post, delta_ms),
        pre.timer.fires(delta_ms),
    ensures
        post.head.position.x - pre.head.position.x == step_dx(pre.head.direction),
        post.head.position.y - pre.head.position.y == step_dy(pre.head.direction),
        forall|i: int|
            0 <= i < pre.body@.len() ==> (#[trigger] post.body@[i]).position.x
                - post.head.position.x == pre.body@[i].position.x - pre.head.position.x
                && post.body@[i].position.y - post.head.position.y == pre.body@[i].position.y
                - pre.head.position.y,
{
}

/// Horizontal movement law: for `Left` and `Right`, a firing tick moves the
/// head by exactly (−1, 0) respectively (+1, 0), and the body keeps its
/// offsets from the head.
pub proof fn lemma_horizontal_step(pre: Snake, post: Snake, delta_ms: u64)
    requires
        tick_rel(pre, post, delta_ms),
        pre.timer.fires(delta_ms),
        pre.head.direction == Direction::Left || pre.head.direction == Direction::Right,
    ensures
        pre.head.direction == Direction::Right ==> post.head.position.x == pre.head.position.x
            + 1,
        pre.head.direction == Direction::Left ==> post.head.position.x == pre.head.position.x - 1,
        post.head.position.y == pre.head.position.y,
        forall|i: int|
            0 <= i < pre.body@.len() ==> (#[trigger] post.body@[i]).position.x
                - post.head.position.x == pre.body@[i].position.x - pre.head.position.x
                && post.body@[i].position.y - post.head.position.y == pre.body@[i].position.y
                - pre.head.position.y,
{
    lemma_rigid_translation(pre, post, delta_ms);
}

/// Vertical aliasing law: for `Up` and `Down` alike, a firing tick moves
/// the head's y by exactly +1 and leaves its x unchanged. This documents
/// the deliberate aliasing of the two vertical directions.
pub proof fn lemma_vertical_aliasing(pre: Snake, post: Snake, delta_ms: u64)
    requires
        tick_rel(pre, post, delta_ms),
        pre.timer.fires(delta_ms),
        pre.head.direction == Direction::Up || pre.head.direction == Direction::Down,
    ensures
        post.head.position.y == pre.head.position.y + 1,
        post.head.position.x == pre.head.position.x,
{
}

/// No-op law: a tick whose accumulated duration stays below the interval
/// mutates no grid coordinate; the accumulator grows by exactly the delta.
pub proof fn lemma_subinterval_noop(pre: Snake, post: Snake, delta_ms: u64)
    requires
        tick_rel(pre, post, delta_ms),
        pre.timer.elapsed_ms + delta_ms < pre.timer.interval_ms,
    ensures
        positions_unchanged(pre, post),
        post.timer.elapsed_ms == pre.timer.elapsed_ms + delta_ms,
{
}

/// Total duration of a sequence of per-pass deltas, in milliseconds.
pub open spec fn total_ms(deltas: Seq<u64>) -> int
    decreases deltas.len(),
{
    if deltas.len() == 0 {
        0
    } else {
        total_ms(deltas.drop_last()) + deltas.last()
    }
}

/// Accumulation law: any run of consecutive ticks whose cumulative
/// duration stays below the interval leaves all grid state unchanged,
/// while the partial progress adds up toward the interval.
/// `states[i]` is the snake before the tick that consumes `deltas[i]`.
pub proof fn lemma_subinterval_accumulation(states: Seq<Snake>, deltas: Seq<u64>)
    requires
        states.len() == deltas.len() + 1,
        forall|i: int| 0 <= i < deltas.len() ==> tick_rel(#[trigger] states[i], states[i + 1], deltas[i]),
        states[0].timer.elapsed_ms + total_ms(deltas) < states[0].timer.interval_ms,
    ensures
        positions_unchanged(states[0], states.last()),
        states.last().timer.elapsed_ms == states[0].timer.elapsed_ms + total_ms(deltas),
        states.last().timer.interval_ms == states[0].timer.interval_ms,
    decreases deltas.len(),
{
    if deltas.len() == 0 {
        assert(states.last() == states[0]);
    } else {
        let n = deltas.len() as int;
        let prefix_states = states.drop_last();
        let prefix_deltas = deltas.drop_last();
        assert(forall|i: int|
            0 <= i < prefix_deltas.len() ==> tick_rel(
                #[trigger] prefix_states[i],
                prefix_states[i + 1],
                prefix_deltas[i],
            ));
        lemma_subinterval_accumulation(prefix_states, prefix_deltas);
        let before_last = states[n - 1];
        let last = states[n];
        assert(prefix_states.last() == before_last);
        assert(before_last.timer.elapsed_ms + deltas.last() < before_last.timer.interval_ms);
        assert(tick_rel(before_last, last, deltas[n - 1]));
    }
}

/// Boundary law: when the accumulated duration equals the interval exactly,
/// the tick fires, exactly one rigid movement step is applied, and the
/// accumulator returns to zero.
pub proof fn lemma_boundary_fire(pre: Snake, post: Snake, delta_ms: u64)
    requires
        tick_rel(pre, post, delta_ms),
        pre.timer.elapsed_ms + delta_ms == pre.timer.interval_ms,
    ensures
        step_applied(pre, post),
        post.timer.elapsed_ms == 0,
{
}

} // verus!
