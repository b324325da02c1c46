//! Per-entity state: the viewport bounds, the per-entity animation context
//! and the physics snapshot that a ticker reads and rewrites.

use vstd::prelude::*;

verus! {

/// The fixed bounds of the drawing area, in the same fixed-point units
/// (hundredths of a display unit) as all entity coordinates.
#[derive(Clone, Copy, PartialEq, Eq, Debug)]
pub struct Viewport {
    pub width: i64,
    pub height: i64,
}

/// Per-entity persistent animation state: the current sprite-frame index and
/// the frame-skip counter that slows the sprite animation relative to the
/// render rate. An entity that owns one mutates it only during its own tick.
#[derive(Clone, Copy, PartialEq, Eq, Debug)]
pub struct Context {
    /// Current discrete animation frame index.
    pub frame: usize,
    /// Ticks still to skip before the next advance tick.
    pub skip: usize,
    /// Number of ticks skipped between two advance ticks; the counter is
    /// reset to this value on every advance tick.
    pub period: usize,
}

impl Context {
    /// A fresh context: `skip` starts at the full period, so the first
    /// advance happens on call number `period + 1`.
    pub open spec fn is_fresh(self) -> bool {
        self.skip == self.period
    }

    /// Whether the next call of `should_advance` reports an advance tick.
    pub open spec fn advances(self) -> bool {
        self.skip == 0
    }

    /// The context after one `should_advance` call: the skip counter is
    /// reset on an advance tick and decremented otherwise; the frame index
    /// is untouched.
    pub open spec fn stepped(self) -> Context {
        if self.skip == 0 {
            Context { frame: self.frame, skip: self.period, period: self.period }
        } else {
            Context { frame: self.frame, skip: (self.skip - 1) as usize, period: self.period }
        }
    }

    pub fn new(initial_frame: usize, period: usize) -> (c: Context)
        ensures
            c.frame == initial_frame,
            c.period == period,
            c.is_fresh(),
    {
        Context { frame: initial_frame, skip: period, period }
    }

    /// The current discrete animation frame.
    pub fn frame(&self) -> (f: usize)
        ensures
            f == self.frame,
    {
        self.frame
    }

    /// Commit a new frame index; the skip counter and period are untouched.
    pub fn set_frame(&mut self, frame: usize)
        ensures
            *final(self) == (Context { frame, skip: old(self).skip, period: old(self).period }),
    {
        self.frame = frame;
    }

    /// Decide whether this tick is an advance tick. Side-effecting: the
    /// internal skip counter moves on every call, even when the answer is
    /// `false`.
    pub fn should_advance(&mut self) -> (advance: bool)
        ensures
            advance == old(self).advances(),
            *final(self) == old(self).stepped(),
    {
        if self.skip == 0 {
            self.skip = self.period;
            true
        } else {
            self.skip = self.skip - 1;
            false
        }
    }
}

/// The context after `k` consecutive `should_advance` calls.
pub open spec fn ctx_after(c: Context, k: nat) -> Context
    decreases k,
{
    if k == 0 {
        c
    } else {
        ctx_after(c, (k - 1) as nat).stepped()
    }
}

/// Within one cycle from a fresh context the skip counter counts down and
/// nothing else moves.
proof fn lemma_ctx_countdown(c: Context, k: nat)
    requires
        c.is_fresh(),
        k <= c.period,
    ensures
        ctx_after(c, k) == (Context {
            frame: c.frame,
            skip: (c.period - k) as usize,
            period: c.period,
        }),
    decreases k,
{
    if k > 0 {
        lemma_ctx_countdown(c, (k - 1) as nat);
    }
}

/// The frame-skip law: starting from a fresh context, `should_advance`
/// reports an advance exactly once every `period + 1` calls — call number
/// `k` (counting from 1) is an advance tick precisely when `k` equals
/// `period + 1` — and after that call the context is fresh again with its
/// frame and period untouched, so the pattern repeats deterministically.
pub proof fn lemma_advance_once_per_cycle(c: Context, k: nat)
    requires
        c.is_fresh(),
        1 <= k <= c.period + 1,
    ensures
        ctx_after(c, (k - 1) as nat).advances() <==> k == c.period + 1,
        ctx_after(c, (c.period + 1) as nat) == (Context {
            frame: c.frame,
            skip: c.period,
            period: c.period,
        }),
{
    lemma_ctx_countdown(c, (k - 1) as nat);
    lemma_ctx_countdown(c, c.period as nat);
}

/// The per-entity snapshot a ticker consumes and produces: fixed-point
/// position, radius and velocity, plus the optional animation context.
/// Tickers follow a functional update discipline: they build a fresh
/// snapshot and the caller discards the old one.
#[derive(Clone, Copy, PartialEq, Eq, Debug)]
pub struct Physics {
    pub x: i64,
    pub y: i64,
    pub r: i64,
    pub vx: i64,
    pub vy: i64,
    pub context: Option<Context>,
}

impl Physics {
    /// A snapshot without animation state, for stateless tickers.
    pub fn new(x: i64, y: i64, r: i64, vx: i64, vy: i64) -> (p: Physics)
        ensures
            p == (Physics { x, y, r, vx, vy, context: None }),
    {
        Physics { x, y, r, vx, vy, context: None }
    }

    /// A snapshot carrying an updated animation context.
    pub fn with_context(x: i64, y: i64, r: i64, vx: i64, vy: i64, context: Context) -> (p: Physics)
        ensures
            p == (Physics { x, y, r, vx, vy, context: Some(context) }),
    {
        Physics { x, y, r, vx, vy, context: Some(context) }
    }
}

} // verus!
