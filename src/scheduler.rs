//! The decisions of the frame loop: when the next tick is due, and whether a
//! tick renders.
//!
//! Deadlines advance by a fixed period from the previous deadline, never from
//! the time at which a tick was handled, so no drift builds up; a loop that
//! falls behind finds its deadlines already passed and runs as fast as it can
//! without catching up. In render-on-change mode a tick renders only when an
//! event reported a change since the last render.

use vstd::prelude::*;

verus! {

/// The nominal frame period, in nanoseconds: 60 evenly spaced ticks a second.
pub const FRAME_PERIOD_NS: u64 = 16_666_667;

/// The state of the frame loop.
#[derive(Clone, Copy, Debug, PartialEq, Eq, Structural)]
pub struct FrameScheduler {
    /// The time between two deadlines, in nanoseconds.
    pub period_ns: u64,
    /// The deadline of the next tick, in nanoseconds on the loop's clock.
    pub next_deadline_ns: u64,
    /// Whether ticks render only after a change.
    pub render_on_change: bool,
    /// Whether an event reported a change that no render has shown yet.
    pub pending: bool,
    /// Whether a close request ended the loop.
    pub closed: bool,
}

/// What a tick decided.
#[derive(Clone, Copy, Debug, PartialEq, Eq, Structural)]
pub struct Tick {
    /// Whether the render callback runs on this tick.
    pub render: bool,
    /// The deadline of the following tick, in nanoseconds on the loop's clock.
    pub wait_until_ns: u64,
    /// How long to wait from the time the tick was handled until that
    /// deadline; zero when the loop has fallen behind.
    pub wait_ns: u64,
}

/// The deadline one period after `deadline`, held at the largest time.
pub open spec fn advance(deadline: u64, period: u64) -> u64 {
    if deadline + period > u64::MAX {
        u64::MAX
    } else {
        (deadline + period) as u64
    }
}

/// A loop whose first tick is due at `start_ns` and renders.
pub open spec fn started(start_ns: u64, period_ns: u64, render_on_change: bool) -> FrameScheduler {
    FrameScheduler { period_ns, next_deadline_ns: start_ns, render_on_change, pending: true, closed: false }
}

/// Whether a tick in state `s` renders.
pub open spec fn renders(s: FrameScheduler) -> bool {
    !s.closed && (s.pending || !s.render_on_change)
}

/// The state after a tick.
pub open spec fn after_tick(s: FrameScheduler) -> FrameScheduler {
    if s.closed {
        s
    } else {
        FrameScheduler {
            next_deadline_ns: advance(s.next_deadline_ns, s.period_ns),
            pending: s.pending && !s.render_on_change,
            ..s
        }
    }
}

/// The state after an event whose handler reported `changed`.
pub open spec fn after_event(s: FrameScheduler, changed: bool) -> FrameScheduler {
    if s.closed {
        s
    } else {
        FrameScheduler { pending: s.pending || changed, ..s }
    }
}

/// The state after `n` ticks with no event between them.
pub open spec fn after_ticks(s: FrameScheduler, n: nat) -> FrameScheduler
    decreases n,
{
    if n == 0 {
        s
    } else {
        after_ticks(after_tick(s), (n - 1) as nat)
    }
}

/// How many of `n` ticks with no event between them render.
pub open spec fn renders_in_ticks(s: FrameScheduler, n: nat) -> nat
    decreases n,
{
    if n == 0 {
        0
    } else {
        (if renders(s) { 1nat } else { 0nat }) + renders_in_ticks(after_tick(s), (n - 1) as nat)
    }
}

impl FrameScheduler {
    /// A loop whose first tick is due at `start_ns` and renders.
    pub fn new(start_ns: u64, period_ns: u64, render_on_change: bool) -> (s: FrameScheduler)
        ensures
            s == started(start_ns, period_ns, render_on_change),
    {
        FrameScheduler { period_ns, next_deadline_ns: start_ns, render_on_change, pending: true, closed: false }
    }

    /// Handle a tick at time `now_ns`: move the deadline one period past the
    /// previous deadline, whatever the time now, and decide whether to
    /// render. A render in render-on-change mode clears the pending change.
    pub fn tick(&mut self, now_ns: u64) -> (t: Tick)
        ensures
            *final(self) == after_tick(*old(self)),
            t.render == renders(*old(self)),
            t.wait_until_ns == final(self).next_deadline_ns,
            t.wait_ns == if now_ns < t.wait_until_ns {
                t.wait_until_ns - now_ns
            } else {
                0
            },
    {
        let render = !self.closed && (self.pending || !self.render_on_change);
        if !self.closed {
            self.next_deadline_ns = self.next_deadline_ns.saturating_add(self.period_ns);
            self.pending = self.pending && !self.render_on_change;
        }
        let wait_until_ns = self.next_deadline_ns;
        Tick { render, wait_until_ns, wait_ns: wait_until_ns.saturating_sub(now_ns) }
    }

    /// Record an event whose handler reported `changed`.
    pub fn event(&mut self, changed: bool)
        ensures
            *final(self) == after_event(*old(self), changed),
    {
        if !self.closed {
            self.pending = self.pending || changed;
        }
    }

    /// Record a close request: no tick renders after it.
    pub fn close(&mut self)
        ensures
            *final(self) == (FrameScheduler { closed: true, ..*old(self) }),
    {
        self.closed = true;
    }
}

/// Ticks leave the render-on-change flag and the closed flag as they were.
proof fn lemma_ticks_keep_flags(s: FrameScheduler, n: nat)
    ensures
        after_ticks(s, n).render_on_change == s.render_on_change,
        after_ticks(s, n).closed == s.closed,
    decreases n,
{
    if n > 0 {
        lemma_ticks_keep_flags(after_tick(s), (n - 1) as nat);
    }
}

/// In render-on-change mode, ticks with no event between them render at most
/// once, on the first tick, and only if a change was pending; after them no
/// change is pending.
pub proof fn lemma_quiet_ticks_render_once(s: FrameScheduler, n: nat)
    requires
        s.render_on_change,
    ensures
        renders_in_ticks(s, n) == (if n > 0 && renders(s) { 1nat } else { 0nat }),
        n > 0 && !s.closed ==> !after_ticks(s, n).pending,
    decreases n,
{
    if n > 0 {
        let t = after_tick(s);
        lemma_quiet_ticks_render_once(t, (n - 1) as nat);
        assert(after_ticks(s, n) == after_ticks(t, (n - 1) as nat));
        if !s.closed {
            assert(!t.pending);
            assert(!renders(t));
        } else {
            assert(t == s);
        }
    }
}

/// In render-on-change mode, after any run of quiet ticks, one event that
/// reports a change followed by ticks with no event between them gives
/// exactly one more render, on the first of those ticks.
pub proof fn lemma_change_renders_once_more(s: FrameScheduler, n: nat, m: nat)
    requires
        s.render_on_change,
        !s.closed,
        m > 0,
    ensures
        renders_in_ticks(after_event(after_ticks(s, n), true), m) == 1,
        renders(after_event(after_ticks(s, n), true)),
{
    lemma_ticks_keep_flags(s, n);
    let e = after_event(after_ticks(s, n), true);
    assert(e.pending && e.render_on_change && !e.closed);
    lemma_quiet_ticks_render_once(e, m);
}

/// Deadlines advance by exactly one period per tick from the first
/// deadline, whatever the times at which the ticks are handled: after `n`
/// ticks the deadline is `n` periods past the first, with no drift and no
/// catching up.
pub proof fn lemma_fixed_increment(s: FrameScheduler, n: nat)
    requires
        !s.closed,
        s.next_deadline_ns + n * s.period_ns <= u64::MAX,
    ensures
        after_ticks(s, n).next_deadline_ns == s.next_deadline_ns + n * s.period_ns,
    decreases n,
{
    if n > 0 {
        let t = after_tick(s);
        assert(s.period_ns <= n * s.period_ns) by (nonlinear_arith)
            requires
                n > 0,
                s.period_ns >= 0,
        ;
        assert(t.next_deadline_ns == s.next_deadline_ns + s.period_ns);
        assert(t.next_deadline_ns + (n - 1) * s.period_ns == s.next_deadline_ns + n * s.period_ns) by (nonlinear_arith)
            requires
                t.next_deadline_ns == s.next_deadline_ns + s.period_ns,
                n > 0,
        ;
        lemma_fixed_increment(t, (n - 1) as nat);
        assert(after_ticks(s, n) == after_ticks(t, (n - 1) as nat));
    } else {
        assert(n * s.period_ns == 0) by (nonlinear_arith)
            requires
                n == 0,
        ;
    }
}

} // verus!
