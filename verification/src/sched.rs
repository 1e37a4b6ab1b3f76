//! The redraw scheduler's decisions: latency batching between the event
//! sources and the renderer, and the cursor-blink timer. The embedding
//! event loop performs the waits and draws; every decision is computed
//! here.
use vstd::prelude::*;

verus! {

/// A monotonic-clock instant: seconds and nanoseconds.
#[derive(Clone, Copy, PartialEq, Eq, Structural, Debug)]
pub struct Timespec {
    pub sec: i64,
    pub nsec: i64,
}

impl Timespec {
    /// A normalized instant: nanoseconds below one second, and seconds
    /// small enough that a difference in nanoseconds fits an `i64`.
    pub open spec fn wf(self) -> bool {
        &&& 0 <= self.sec <= 0x2_0000_0000i64
        &&& 0 <= self.nsec < 1_000_000_000i64
    }
}

/// Time order: `a` is not after `b`.
pub open spec fn ts_le(a: Timespec, b: Timespec) -> bool {
    a.sec < b.sec || (a.sec == b.sec && a.nsec <= b.nsec)
}

/// Whole milliseconds from `a` to `b`.
pub open spec fn ms_between(a: Timespec, b: Timespec) -> int {
    ((b.sec - a.sec) * 1_000_000_000 + (b.nsec - a.nsec)) / 1_000_000
}

/// Milliseconds elapsed from `t2` to `t1`, for `t2` not after `t1`.
pub fn timediff(t1: Timespec, t2: Timespec) -> (ms: i64)
    requires
        t1.wf(),
        t2.wf(),
        ts_le(t2, t1),
    ensures
        ms == ms_between(t2, t1),
        0 <= ms <= 0x7d2_b750_0000i64,
{
    let ns: i64 = (t1.sec - t2.sec) * 1_000_000_000 + (t1.nsec - t2.nsec);
    proof {
        assert(ns >= 0);
    }
    let ms: i64 = ((ns as u64) / 1_000_000u64) as i64;
    ms
}

/// One decision of the scheduler: either keep waiting for up to `timeout`
/// milliseconds in the hope of batching more changes, or draw now. On a
/// draw, `timeout` is the next wait (-1 blocks indefinitely), and
/// `toggle_blink` asks the caller to flip the blink phase (restarting it
/// visible when `blink_start_visible` is set) and to mark blinking rows
/// dirty.
#[derive(Clone, Copy, PartialEq, Eq, Structural, Debug)]
pub struct SchedDecision {
    pub draw: bool,
    pub timeout: i64,
    pub toggle_blink: bool,
    pub blink_start_visible: bool,
}

/// The redraw scheduler: its latency configuration and the batching and
/// blink timestamps it keeps between iterations.
#[derive(Clone, Copy, PartialEq, Eq, Structural, Debug)]
pub struct Scheduler {
    /// Wait granted for further changes to arrive once one was seen.
    pub minlatency: i64,
    /// Longest time a batch may delay a draw.
    pub maxlatency: i64,
    /// Blink half-period; zero disables blinking.
    pub blinktimeout: i64,
    /// A batch is open: activity was seen and no draw happened yet.
    pub drawing: bool,
    /// When the open batch began.
    pub trigger: Timespec,
    /// When the blink phase last flipped.
    pub lastblink: Timespec,
}

impl Scheduler {
    pub open spec fn wf(self) -> bool {
        &&& 1 <= self.minlatency <= self.maxlatency <= 100_000i64
        &&& 0 <= self.blinktimeout <= 100_000i64
        &&& self.trigger.wf()
        &&& self.lastblink.wf()
    }

    /// A fresh scheduler with the given latency window and blink period.
    pub fn new(minlatency: i64, maxlatency: i64, blinktimeout: i64) -> (s: Scheduler)
        requires
            1 <= minlatency <= maxlatency <= 100_000i64,
            0 <= blinktimeout <= 100_000i64,
        ensures
            s.wf(),
            s.minlatency == minlatency,
            s.maxlatency == maxlatency,
            s.blinktimeout == blinktimeout,
            !s.drawing,
            s.trigger == (Timespec { sec: 0, nsec: 0 }),
            s.lastblink == (Timespec { sec: 0, nsec: 0 }),
    {
        Scheduler {
            minlatency: minlatency,
            maxlatency: maxlatency,
            blinktimeout: blinktimeout,
            drawing: false,
            trigger: Timespec { sec: 0, nsec: 0 },
            lastblink: Timespec { sec: 0, nsec: 0 },
        }
    }

    /// The wait the batching policy grants at `now` for a batch opened at
    /// `trig`: the share of the remaining maximum latency, scaled into the
    /// minimum-latency window.
    pub open spec fn batch_timeout(self, trig: Timespec, now: Timespec) -> int {
        (self.maxlatency - ms_between(trig, now)) * self.minlatency / (self.maxlatency as int)
    }

    /// The scheduler and decision `step` produces from state `o` when the
    /// iteration at `now` saw activity (`activity`) and the screen holds a
    /// blinking cell (`any_blink`).
    ///
    /// Activity opens a batch (recording `now`) or extends the running
    /// one; while the batching policy still grants time, the decision is
    /// to wait that long. Otherwise the decision is to draw; if blinking
    /// is configured and present, an expired blink period flips the phase
    /// and restarts the blink timer, and the next wait is the time to the
    /// next blink toggle, or indefinite without one.
    pub open spec fn step_spec(o: Scheduler, now: Timespec, activity: bool, any_blink: bool) -> (
        Scheduler,
        SchedDecision,
    ) {
        let trig = if activity && !o.drawing {
            now
        } else {
            o.trigger
        };
        let opened = Scheduler { drawing: o.drawing || activity, trigger: trig, ..o };
        let t = o.batch_timeout(trig, now);
        if activity && t > 0 {
            (
                opened,
                SchedDecision {
                    draw: false,
                    timeout: t as i64,
                    toggle_blink: false,
                    blink_start_visible: false,
                },
            )
        } else {
            if o.blinktimeout > 0 && any_blink {
                let remain = o.blinktimeout - ms_between(o.lastblink, now);
                if remain <= 0 {
                    (
                        Scheduler { drawing: false, trigger: trig, lastblink: now, ..o },
                        SchedDecision {
                            draw: true,
                            timeout: o.blinktimeout,
                            toggle_blink: true,
                            blink_start_visible: remain + o.blinktimeout < 0,
                        },
                    )
                } else {
                    (
                        Scheduler { drawing: false, trigger: trig, ..o },
                        SchedDecision {
                            draw: true,
                            timeout: remain as i64,
                            toggle_blink: false,
                            blink_start_visible: false,
                        },
                    )
                }
            } else {
                (
                    Scheduler { drawing: false, trigger: trig, ..o },
                    SchedDecision {
                        draw: true,
                        timeout: -1i64,
                        toggle_blink: false,
                        blink_start_visible: false,
                    },
                )
            }
        }
    }

    /// Decide what this iteration does, as `step_spec` describes.
    pub fn step(&mut self, now: Timespec, activity: bool, any_blink: bool) -> (d: SchedDecision)
        requires
            old(self).wf(),
            now.wf(),
            ts_le(old(self).trigger, now),
            ts_le(old(self).lastblink, now),
        ensures
            final(self).wf(),
            ts_le(final(self).trigger, now),
            ts_le(final(self).lastblink, now),
            *final(self) == Scheduler::step_spec(*old(self), now, activity, any_blink).0,
            d == Scheduler::step_spec(*old(self), now, activity, any_blink).1,
    {
        if activity {
            if !self.drawing {
                self.trigger = now;
                self.drawing = true;
            }
            let elapsed = timediff(now, self.trigger);
            if elapsed < self.maxlatency {
                proof {
                    assert(0 <= elapsed);
                    assert(0 < self.maxlatency - elapsed <= 100_000);
                    assert(1 <= self.minlatency <= 100_000);
                    vstd::arithmetic::mul::lemma_mul_upper_bound(
                        self.maxlatency - elapsed,
                        100_000,
                        self.minlatency as int,
                        100_000,
                    );
                }
                let t: i64 = (((self.maxlatency - elapsed) as u64) * (self.minlatency as u64)
                    / (self.maxlatency as u64)) as i64;
                if t > 0 {
                    return SchedDecision {
                        draw: false,
                        timeout: t,
                        toggle_blink: false,
                        blink_start_visible: false,
                    };
                }
            } else {
                proof {
                    let o = *old(self);
                    let trig = Scheduler::step_spec(o, now, activity, any_blink).0.trigger;
                    assert(o.batch_timeout(trig, now) <= 0) by {
                        vstd::arithmetic::mul::lemma_mul_inequality(
                            o.maxlatency - ms_between(trig, now),
                            0,
                            o.minlatency as int,
                        );
                        vstd::arithmetic::div_mod::lemma_div_is_ordered(
                            (o.maxlatency - ms_between(trig, now)) * o.minlatency,
                            0,
                            o.maxlatency as int,
                        );
                    }
                }
            }
        }
        self.drawing = false;
        let mut timeout: i64 = -1;
        let mut toggle = false;
        let mut start_visible = false;
        if self.blinktimeout > 0 && any_blink {
            let since = timediff(now, self.lastblink);
            timeout = self.blinktimeout - since;
            if timeout <= 0 {
                start_visible = -timeout > self.blinktimeout;
                toggle = true;
                self.lastblink = now;
                timeout = self.blinktimeout;
            }
        }
        SchedDecision {
            draw: true,
            timeout: timeout,
            toggle_blink: toggle,
            blink_start_visible: start_visible,
        }
    }
}

} // verus!
