//! The per-entity update rules. A ticker maps the current physics snapshot
//! and the viewport bounds to the next snapshot; the four variants form a
//! closed set dispatched by pattern match.

use crate::physics::{Context, Physics, Viewport};
use vstd::prelude::*;

verus! {

/// Downward pull added to the vertical velocity on every non-bouncing tick
/// of the bounce rule: 0.27 display units per tick, in hundredths.
pub const GRAVITY_DRAG: i64 = 27;

/// Fixed upward thrust the bounce rule resets the vertical velocity to when
/// the disc passes the bottom of the viewport: -20 display units per tick,
/// in hundredths.
pub const BOUNCE_THRUST: i64 = -2000;

/// Horizontal shift of the mirrored sprite-cycle rule: half of the 90-unit
/// sprite width, in hundredths, so the mirrored sprite renders beside the
/// forward one.
pub const MIRROR_OFFSET: i64 = 4500;

/// Bound on the coordinates a frame table may hold. Far beyond any drawing
/// area, it only keeps the halving and the mirror shift inside `i64`.
pub const MAX_COORD: i64 = 0x2000_0000_0000_0000;

/// Division by two rounding toward zero, as the executable `/` does: the
/// exact half of every even input, which in hundredths means every position
/// of whole-hundredth resolution.
pub open spec fn half_toward_zero(x: int) -> int {
    if x >= 0 {
        x / 2
    } else {
        -((-x) / 2)
    }
}

/// A frame table: the ordered waypoints a sprite-cycling entity walks
/// through. Never empty, and bounded so the arithmetic on its entries
/// stays exact.
pub open spec fn table_wf(t: Seq<(i64, i64)>) -> bool {
    &&& t.len() > 0
    &&& forall|i: int|
        0 <= i < t.len() ==> -MAX_COORD <= (#[trigger] t[i]).0 <= MAX_COORD && -MAX_COORD <= t[i].1
            <= MAX_COORD
}

/// The update rule an entity carries. `Static` and `Bounce` are stateless;
/// the two sprite-cycle rules walk a frame table and require the entity's
/// physics to carry a context.
#[derive(PartialEq, Eq, Debug)]
pub enum Ticker {
    /// Identity rule for non-animating background entities.
    Static,
    /// Vertically bouncing disc: gravity accumulates until the disc leaves
    /// the bottom of the viewport, then the velocity is reset to a fixed
    /// upward thrust.
    Bounce,
    /// Walks the frame table forward, wrapping to index 0 past the end.
    SpriteForward { table: Vec<(i64, i64)> },
    /// Walks the frame table backward, wrapping to the last index at 0, and
    /// shifts the resulting x so the mirrored sprite renders beside the
    /// forward one.
    SpriteReverse { table: Vec<(i64, i64)> },
}

/// One bounce step: the disc falls by its vertical velocity; past the
/// bottom of the viewport the velocity resets to the fixed thrust,
/// otherwise the drag accumulates.
pub open spec fn bounce_spec(p: Physics, viewport: Viewport) -> Physics {
    let y2 = p.y + p.vy;
    let vy2 = if y2 > viewport.height {
        BOUNCE_THRUST as int
    } else {
        p.vy + GRAVITY_DRAG
    };
    Physics { y: y2 as i64, vy: vy2 as i64, ..p }
}

/// The next frame index when walking forward: increment, wrapping to 0 at
/// the table length.
pub open spec fn next_frame_forward(frame: int, len: int) -> int {
    if frame + 1 == len {
        0
    } else {
        frame + 1
    }
}

/// The next frame index when walking backward: decrement, wrapping to
/// `len - 1` at 0.
pub open spec fn next_frame_reverse(frame: int, len: int) -> int {
    if frame == 0 {
        len - 1
    } else {
        frame - 1
    }
}

/// One forward sprite-cycle step. On an advance tick the position is read
/// from the table at the current frame index (x halved by the display-scale
/// convention) and the index moves forward; on a skip tick only the skip
/// counter moves.
pub open spec fn sprite_forward_spec(t: Seq<(i64, i64)>, p: Physics) -> Physics {
    let c = p.context->Some_0;
    if c.advances() {
        let pos = t[c.frame as int];
        let advanced = Context {
            frame: next_frame_forward(c.frame as int, t.len() as int) as usize,
            ..c.stepped()
        };
        Physics {
            x: half_toward_zero(pos.0 as int) as i64,
            y: pos.1,
            context: Some(advanced),
            ..p
        }
    } else {
        Physics { context: Some(c.stepped()), ..p }
    }
}

/// One backward sprite-cycle step: as the forward one, but the index moves
/// backward and the x coordinate is shifted by [`MIRROR_OFFSET`].
pub open spec fn sprite_reverse_spec(t: Seq<(i64, i64)>, p: Physics) -> Physics {
    let c = p.context->Some_0;
    if c.advances() {
        let pos = t[c.frame as int];
        let advanced = Context {
            frame: next_frame_reverse(c.frame as int, t.len() as int) as usize,
            ..c.stepped()
        };
        Physics {
            x: (half_toward_zero(pos.0 as int) + MIRROR_OFFSET) as i64,
            y: pos.1,
            context: Some(advanced),
            ..p
        }
    } else {
        Physics { context: Some(c.stepped()), ..p }
    }
}

impl Ticker {
    /// Structural soundness of the rule itself: sprite rules carry a
    /// well-formed frame table.
    pub open spec fn wf(self) -> bool {
        match self {
            Ticker::Static => true,
            Ticker::Bounce => true,
            Ticker::SpriteForward { table } => table_wf(table@),
            Ticker::SpriteReverse { table } => table_wf(table@),
        }
    }

    /// Whether the rule demands an animation context. Handing such a rule a
    /// snapshot without one is a contract violation, not a recoverable
    /// condition.
    pub open spec fn needs_context(self) -> bool {
        self is SpriteForward || self is SpriteReverse
    }

    /// Whether a context is acceptable for this rule: sprite rules need one
    /// whose frame index lies inside the table.
    pub open spec fn accepts_context(self, context: Option<Context>) -> bool {
        match self {
            Ticker::Static => true,
            Ticker::Bounce => true,
            Ticker::SpriteForward { table } => context matches Some(c) && c.frame < table@.len(),
            Ticker::SpriteReverse { table } => context matches Some(c) && c.frame < table@.len(),
        }
    }

    /// The sums the bounce rule forms stay inside `i64`; a machine limit of
    /// the fixed-point representation, not a rule of the model.
    pub open spec fn arith_ok(self, p: Physics) -> bool {
        self is Bounce ==> i64::MIN <= p.y + p.vy <= i64::MAX && i64::MIN <= p.vy + GRAVITY_DRAG
            <= i64::MAX
    }

    /// Everything one tick of this rule on `p` relies on.
    pub open spec fn tick_ok(self, p: Physics) -> bool {
        self.wf() && self.accepts_context(p.context) && self.arith_ok(p)
    }

    /// The mathematical model of one tick of this rule.
    pub open spec fn tick_spec(self, p: Physics, viewport: Viewport) -> Physics {
        match self {
            Ticker::Static => p,
            Ticker::Bounce => bounce_spec(p, viewport),
            Ticker::SpriteForward { table } => sprite_forward_spec(table@, p),
            Ticker::SpriteReverse { table } => sprite_reverse_spec(table@, p),
        }
    }

    /// One tick: the next physics snapshot for `input` under this rule.
    pub fn tick(&self, input: Physics, viewport: &Viewport) -> (out: Physics)
        requires
            self.tick_ok(input),
        ensures
            out == self.tick_spec(input, *viewport),
    {
        match self {
            Ticker::Static => input,
            Ticker::Bounce => {
                let y = input.y + input.vy;
                let vy = if y > viewport.height {
                    BOUNCE_THRUST
                } else {
                    input.vy + GRAVITY_DRAG
                };
                Physics { y, vy, ..input }
            },
            Ticker::SpriteForward { table } => {
                let mut context = input.context.unwrap();
                if context.should_advance() {
                    let mut frame = context.frame();
                    let len = table.len();
                    let pos = table[frame];
                    frame = frame + 1;
                    if frame == len {
                        frame = 0;
                    }
                    context.set_frame(frame);
                    Physics::with_context(
                        half(pos.0),
                        pos.1,
                        input.r,
                        input.vx,
                        input.vy,
                        context,
                    )
                } else {
                    Physics::with_context(input.x, input.y, input.r, input.vx, input.vy, context)
                }
            },
            Ticker::SpriteReverse { table } => {
                let mut context = input.context.unwrap();
                if context.should_advance() {
                    let frame = context.frame();
                    let pos = table[frame];
                    if frame == 0 {
                        context.set_frame(table.len() - 1);
                    } else {
                        context.set_frame(frame - 1);
                    }
                    Physics::with_context(
                        half(pos.0) + MIRROR_OFFSET,
                        pos.1,
                        input.r,
                        input.vx,
                        input.vy,
                        context,
                    )
                } else {
                    Physics::with_context(input.x, input.y, input.r, input.vx, input.vy, context)
                }
            },
        }
    }
}

/// Exact halving of a fixed-point coordinate, rounding toward zero as the
/// display-scale convention's `/ 2` does.
pub fn half(x: i64) -> (r: i64)
    requires
        x > i64::MIN,
    ensures
        r == half_toward_zero(x as int),
{
    x / 2
}

/// The identity law of the static rule: for every snapshot and every
/// viewport, a static entity's tick returns its input unchanged.
pub proof fn lemma_static_identity(p: Physics, viewport: Viewport)
    ensures
        Ticker::Static.tick_spec(p, viewport) == p,
{
}

/// The bounce velocity law: whenever the fallen position stays inside the
/// viewport the drag accumulates onto the velocity, and otherwise the
/// velocity is reset to the fixed thrust regardless of its prior value.
pub proof fn lemma_bounce_velocity(p: Physics, viewport: Viewport)
    requires
        Ticker::Bounce.arith_ok(p),
    ensures
        p.y + p.vy <= viewport.height ==> Ticker::Bounce.tick_spec(p, viewport).vy == p.vy
            + GRAVITY_DRAG,
        p.y + p.vy > viewport.height ==> Ticker::Bounce.tick_spec(p, viewport).vy == BOUNCE_THRUST,
        Ticker::Bounce.tick_spec(p, viewport).y == p.y + p.vy,
{
}

/// The physics of an entity after `k` consecutive ticks of one rule.
pub open spec fn tick_iter(t: Ticker, p: Physics, viewport: Viewport, k: nat) -> Physics
    decreases k,
{
    if k == 0 {
        p
    } else {
        t.tick_spec(tick_iter(t, p, viewport, (k - 1) as nat), viewport)
    }
}

/// How many ticks it takes a context of the given period to go through the
/// given number of advance ticks: `advances * (period + 1)`, written as a
/// recursion so the proofs can walk it block by block.
pub open spec fn cycle_ticks(period: nat, advances: nat) -> nat
    decreases advances,
{
    if advances == 0 {
        0
    } else {
        cycle_ticks(period, (advances - 1) as nat) + period + 1
    }
}

/// `cycle_ticks` closed form: `advances` advance ticks take
/// `advances * (period + 1)` calls.
pub proof fn lemma_cycle_ticks_value(period: nat, advances: nat)
    ensures
        cycle_ticks(period, advances) == advances * (period + 1),
    decreases advances,
{
    if advances == 0 {
        assert(cycle_ticks(period, advances) == 0);
        assert(advances * (period + 1) == 0) by (nonlinear_arith)
            requires advances == 0;
    } else {
        lemma_cycle_ticks_value(period, (advances - 1) as nat);
        assert(cycle_ticks(period, advances) == cycle_ticks(period, (advances - 1) as nat) + period
            + 1);
        assert(advances * (period + 1) == (advances - 1) * (period + 1) + (period + 1))
            by (nonlinear_arith);
    }
}

/// The frame index after `m` forward advance steps over a table of length
/// `n`.
pub open spec fn fwd_iter(frame: int, n: int, m: nat) -> int
    decreases m,
{
    if m == 0 {
        frame
    } else {
        next_frame_forward(fwd_iter(frame, n, (m - 1) as nat), n)
    }
}

proof fn lemma_fwd_iter_range(frame: int, n: int, m: nat)
    requires
        0 <= frame < n,
    ensures
        0 <= fwd_iter(frame, n, m) < n,
    decreases m,
{
    if m > 0 {
        lemma_fwd_iter_range(frame, n, (m - 1) as nat);
    }
}

/// Walking forward never revisits an index early and returns to the start
/// after exactly `n` advance steps: within one walk the index is the start
/// offset by the step count, wrapped at most once.
pub proof fn lemma_fwd_iter_closed(frame: int, n: int, m: nat)
    requires
        0 <= frame < n,
        m <= n,
    ensures
        fwd_iter(frame, n, m) == if frame + m < n {
            frame + m
        } else {
            frame + m - n
        },
    decreases m,
{
    if m > 0 {
        lemma_fwd_iter_closed(frame, n, (m - 1) as nat);
    }
}

proof fn lemma_tick_iter_add(t: Ticker, p: Physics, viewport: Viewport, a: nat, b: nat)
    ensures
        tick_iter(t, p, viewport, a + b) == tick_iter(t, tick_iter(t, p, viewport, a), viewport, b),
    decreases b,
{
    if b > 0 {
        lemma_tick_iter_add(t, p, viewport, a, (b - 1) as nat);
    }
}

/// During the skip phase a forward sprite-cycle entity only counts down:
/// position, frame index and period are untouched.
proof fn lemma_forward_skip_phase(t: Ticker, p: Physics, viewport: Viewport, j: nat)
    requires
        t is SpriteForward,
        p.context matches Some(c) && j <= c.skip,
    ensures
        tick_iter(t, p, viewport, j) == (Physics {
            context: Some(
                Context {
                    frame: p.context->Some_0.frame,
                    skip: (p.context->Some_0.skip - j) as usize,
                    period: p.context->Some_0.period,
                },
            ),
            ..p
        }),
    decreases j,
{
    if j > 0 {
        lemma_forward_skip_phase(t, p, viewport, (j - 1) as nat);
    }
}

/// One full block from a fresh context: `period` skip ticks and then the
/// one advance tick, which moves the frame one step forward and leaves the
/// context fresh again.
proof fn lemma_forward_block(t: Ticker, p: Physics, viewport: Viewport)
    requires
        t is SpriteForward,
        t.wf(),
        p.context matches Some(c) && c.is_fresh() && c.frame < t->SpriteForward_table@.len(),
    ensures
        tick_iter(t, p, viewport, (p.context->Some_0.period + 1) as nat).context == Some(
            Context {
                frame: next_frame_forward(
                    p.context->Some_0.frame as int,
                    t->SpriteForward_table@.len() as int,
                ) as usize,
                skip: p.context->Some_0.period,
                period: p.context->Some_0.period,
            },
        ),
{
    let c = p.context->Some_0;
    assert(t->SpriteForward_table.len() == t->SpriteForward_table@.len());
    lemma_forward_skip_phase(t, p, viewport, c.period as nat);
    assert(tick_iter(t, p, viewport, (c.period + 1) as nat) == t.tick_spec(
        tick_iter(t, p, viewport, c.period as nat),
        viewport,
    ));
}

/// The number of ticks in `walks` complete traversals of a table of length
/// `n`: `walks * n` advance ticks, each costing `period + 1` calls.
pub open spec fn full_cycle_ticks(period: nat, n: nat, walks: nat) -> nat
    decreases walks,
{
    if walks == 0 {
        0
    } else {
        full_cycle_ticks(period, n, (walks - 1) as nat) + cycle_ticks(period, n)
    }
}

/// `full_cycle_ticks` closed form: `walks * n * (period + 1)` calls.
pub proof fn lemma_full_cycle_ticks_value(period: nat, n: nat, walks: nat)
    ensures
        full_cycle_ticks(period, n, walks) == walks * n * (period + 1),
    decreases walks,
{
    lemma_cycle_ticks_value(period, n);
    if walks == 0 {
        assert(full_cycle_ticks(period, n, walks) == 0);
        assert(walks * n * (period + 1) == 0) by (nonlinear_arith)
            requires walks == 0;
    } else {
        lemma_full_cycle_ticks_value(period, n, (walks - 1) as nat);
        assert(full_cycle_ticks(period, n, walks) == full_cycle_ticks(
            period,
            n,
            (walks - 1) as nat,
        ) + cycle_ticks(period, n));
        assert(walks * n * (period + 1) == (walks - 1) * n * (period + 1) + n * (period + 1))
            by (nonlinear_arith);
    }
}

/// After a whole number of advance steps from a fresh context, the frame
/// index is the forward walk of the start index and the context is fresh
/// again.
proof fn lemma_forward_blocks(t: Ticker, p: Physics, viewport: Viewport, advances: nat)
    requires
        t is SpriteForward,
        t.wf(),
        p.context matches Some(c) && c.is_fresh() && c.frame < t->SpriteForward_table@.len(),
    ensures
        tick_iter(
            t,
            p,
            viewport,
            cycle_ticks(p.context->Some_0.period as nat, advances),
        ).context == Some(
            Context {
                frame: fwd_iter(
                    p.context->Some_0.frame as int,
                    t->SpriteForward_table@.len() as int,
                    advances,
                ) as usize,
                skip: p.context->Some_0.period,
                period: p.context->Some_0.period,
            },
        ),
    decreases advances,
{
    let c = p.context->Some_0;
    let n = t->SpriteForward_table@.len() as int;
    assert(t->SpriteForward_table.len() == t->SpriteForward_table@.len());
    if advances > 0 {
        lemma_forward_blocks(t, p, viewport, (advances - 1) as nat);
        lemma_fwd_iter_range(c.frame as int, n, (advances - 1) as nat);
        let q = tick_iter(t, p, viewport, cycle_ticks(c.period as nat, (advances - 1) as nat));
        lemma_tick_iter_add(
            t,
            p,
            viewport,
            cycle_ticks(c.period as nat, (advances - 1) as nat),
            (c.period + 1) as nat,
        );
        lemma_forward_block(t, q, viewport);
    }
}

/// The full-cycle law of the forward sprite rule: over a table of length
/// `N`, a walk of any whole number of traversals — `walks * N` advance
/// ticks, which by [`lemma_full_cycle_ticks_value`] is exactly
/// `walks * N * (period + 1)` calls from a fresh context — returns the
/// frame index to its starting value and leaves the context fresh again.
pub proof fn lemma_forward_full_cycle(t: Ticker, p: Physics, viewport: Viewport, walks: nat)
    requires
        t is SpriteForward,
        t.wf(),
        p.context matches Some(c) && c.is_fresh() && c.frame < t->SpriteForward_table@.len(),
    ensures
        tick_iter(
            t,
            p,
            viewport,
            full_cycle_ticks(
                p.context->Some_0.period as nat,
                t->SpriteForward_table@.len(),
                walks,
            ),
        ).context == p.context,
    decreases walks,
{
    let c = p.context->Some_0;
    let n = t->SpriteForward_table@.len() as int;
    assert(t->SpriteForward_table.len() == t->SpriteForward_table@.len());
    if walks > 0 {
        lemma_forward_full_cycle(t, p, viewport, (walks - 1) as nat);
        let q = tick_iter(
            t,
            p,
            viewport,
            full_cycle_ticks(c.period as nat, n as nat, (walks - 1) as nat),
        );
        lemma_tick_iter_add(
            t,
            p,
            viewport,
            full_cycle_ticks(c.period as nat, n as nat, (walks - 1) as nat),
            cycle_ticks(c.period as nat, n as nat),
        );
        lemma_forward_blocks(t, q, viewport, n as nat);
        lemma_fwd_iter_closed(c.frame as int, n, n as nat);
    }
}

/// The backward wraparound law: a reverse sprite-cycle entity standing at
/// frame index 0 advances to the last index of its table.
pub proof fn lemma_reverse_wraparound(t: Ticker, p: Physics, viewport: Viewport)
    requires
        t is SpriteReverse,
        t.wf(),
        p.context matches Some(c) && c.frame == 0 && c.advances(),
    ensures
        t.tick_spec(p, viewport).context->Some_0.frame == t->SpriteReverse_table@.len() - 1,
{
    assert(t->SpriteReverse_table.len() == t->SpriteReverse_table@.len());
}

} // verus!
