use vstd::arithmetic::div_mod::lemma_div_multiples_vanish_quotient;
use vstd::prelude::*;

verus! {

/// Nanoseconds in one second.
pub const NANOS_PER_SEC: u64 = 1_000_000_000;

/// Length of the counting window: once more than this much time has passed
/// since the window started, the window starts over.
pub const WINDOW_NANOS: u64 = 2_000_000_000;

/// Frame-rate counter driven by a monotonic clock read in nanoseconds.
///
/// The current rate is the rational `frames / span` frames per nanosecond,
/// taken at the last update that saw a positive elapsed time; before any such
/// update there is no measurement and the rate reads as zero.
pub struct FPS {
    /// Clock reading at which the current counting window started.
    pub start: u64,
    /// Frames counted in the current window.
    pub count: u64,
    /// Frames of the last measurement.
    pub frames: u64,
    /// Nanoseconds of the last measurement; zero when there is none yet.
    pub span: u64,
}

/// Nanoseconds from `start` to `now`; a clock that stepped back counts as none.
pub open spec fn elapsed_spec(start: u64, now: u64) -> u64 {
    if now >= start {
        (now - start) as u64
    } else {
        0
    }
}

/// The rate `frames / span` in hundredths of a frame per second, rounded to
/// the nearest, half up; zero when there is no measurement.
pub open spec fn centi_fps_spec(frames: u64, span: u64) -> nat {
    if span == 0 {
        0
    } else {
        ((2 * frames * 100 * NANOS_PER_SEC + span) / (2 * span as int)) as nat
    }
}

impl FPS {
    /// The counter after one frame reported at clock reading `now`.
    pub open spec fn next(self, now: u64) -> FPS {
        let elapsed = elapsed_spec(self.start, now);
        let counted = if self.count < u64::MAX { (self.count + 1) as u64 } else { self.count };
        let (frames, span) = if elapsed > 0 {
            (counted, elapsed)
        } else {
            (self.frames, self.span)
        };
        if elapsed > WINDOW_NANOS {
            FPS { start: now, count: 0, frames, span }
        } else {
            FPS { start: self.start, count: counted, frames, span }
        }
    }

    /// The current rate in hundredths of a frame per second.
    pub open spec fn centi_fps(self) -> nat {
        centi_fps_spec(self.frames, self.span)
    }

    /// A counter whose window starts at clock reading `now`, with no frames.
    pub fn new(now: u64) -> (r: FPS)
        ensures
            r == (FPS { start: now, count: 0, frames: 0, span: 0 }),
            r.centi_fps() == 0,
    {
        FPS { start: now, count: 0, frames: 0, span: 0 }
    }

    /// Counts one frame at clock reading `now`. The rate becomes frames
    /// counted over time elapsed in the window; with no time elapsed the rate
    /// is left as it was. Past the window length the window starts over.
    pub fn update(&mut self, now: u64)
        ensures
            *final(self) == old(self).next(now),
            elapsed_spec(old(self).start, now) == 0 ==> final(self).centi_fps()
                == old(self).centi_fps(),
    {
        let elapsed: u64 = now.saturating_sub(self.start);
        let counted: u64 = self.count.saturating_add(1);
        if elapsed > 0 {
            self.frames = counted;
            self.span = elapsed;
        }
        if elapsed > WINDOW_NANOS {
            self.start = now;
            self.count = 0;
        } else {
            self.count = counted;
        }
    }

    /// The current rate in hundredths of a frame per second, rounded to the
    /// nearest; zero before the first measurement. Never divides by zero.
    pub fn fps(&self) -> (r: u128)
        ensures
            r == self.centi_fps(),
    {
        if self.span == 0 {
            0
        } else {
            let f: u128 = self.frames as u128;
            assert(f * 200_000_000_000 <= 0xffff_ffff_ffff_ffffu128 * 200_000_000_000)
                by (nonlinear_arith)
                requires f <= 0xffff_ffff_ffff_ffffu128;
            let num: u128 = f * 200_000_000_000 + self.span as u128;
            assert(num == 2 * self.frames * 100 * NANOS_PER_SEC + self.span);
            let den: u128 = 2 * (self.span as u128);
            num / den
        }
    }
}

/// At a steady frame interval `dt`, starting from a counter whose frames so
/// far match the time elapsed in its window (as a fresh counter's do), each
/// update measures exactly one frame per `dt` nanoseconds, and the counter
/// stays in step for the next frame, across window restarts too.
pub proof fn lemma_steady_rate(s: FPS, now: u64, dt: u64)
    requires
        dt > 0,
        now >= s.start,
        s.count * dt == now - s.start,
        now + dt <= u64::MAX,
        s.count < u64::MAX,
    ensures
        ({
            let t = s.next((now + dt) as u64);
            &&& t.frames * dt == t.span
            &&& t.centi_fps() == centi_fps_spec(1, dt)
            &&& t.start <= now + dt
            &&& t.count * dt == (now + dt) - t.start
        }),
{
    let later = (now + dt) as u64;
    assert(elapsed_spec(s.start, later) == now + dt - s.start);
    assert((s.count + 1) * dt == s.count * dt + dt) by (nonlinear_arith);
    if s.count == 0 {
        assert(now == s.start) by (nonlinear_arith)
            requires s.count == 0, s.count * dt == now - s.start;
    }
    let t = s.next(later);
    let f = t.frames as int;
    let a = 2 * 100 * NANOS_PER_SEC + dt;
    let d = 2 * dt as int;
    assert(f > 0);
    assert(t.span == f * dt);
    lemma_div_multiples_vanish_quotient(f, a, d);
    assert(f * a == 2 * f * 100 * NANOS_PER_SEC + f * dt) by (nonlinear_arith)
        requires a == 2 * 100 * NANOS_PER_SEC + dt;
    assert(f * d == 2 * (f * dt)) by (nonlinear_arith)
        requires d == 2 * dt;
}

/// The counter started at `now` after `n` frames reported every `dt`
/// nanoseconds from then on.
pub open spec fn steady_run(now: u64, dt: u64, n: nat) -> FPS
    decreases n,
{
    if n == 0 {
        FPS { start: now, count: 0, frames: 0, span: 0 }
    } else {
        steady_run(now, dt, (n - 1) as nat).next((now + n * dt) as u64)
    }
}

/// Frames reported at a steady interval of `dt` nanoseconds read, from the
/// first frame on and across every window restart, exactly the rate of one
/// frame per `dt`.
pub proof fn lemma_steady_run_rate(now: u64, dt: u64, n: nat)
    requires
        dt > 0,
        now + n * dt <= u64::MAX,
    ensures
        ({
            let t = steady_run(now, dt, n);
            &&& t.start <= now + n * dt
            &&& t.count * dt == now + n * dt - t.start
            &&& t.count * dt <= WINDOW_NANOS
            &&& n >= 1 ==> t.frames * dt == t.span && t.centi_fps() == centi_fps_spec(1, dt)
        }),
    decreases n,
{
    if n > 0 {
        let m = (n - 1) as nat;
        assert(now + m * dt <= now + n * dt) by (nonlinear_arith)
            requires m == n - 1, dt > 0;
        assert(m * dt + dt == n * dt) by (nonlinear_arith)
            requires m == n - 1;
        lemma_steady_run_rate(now, dt, m);
        let s = steady_run(now, dt, m);
        assert(s.count <= s.count * dt) by (nonlinear_arith)
            requires dt > 0;
        lemma_steady_rate(s, (now + m * dt) as u64, dt);
    }
}

/// Reporting frames with no time elapsed, twice in a row, leaves the rate as
/// it was and never divides by zero.
pub proof fn lemma_zero_elapsed_twice(s: FPS)
    ensures
        s.next(s.start).centi_fps() == s.centi_fps(),
        s.next(s.start).next(s.start).centi_fps() == s.centi_fps(),
{
}

} // verus!
