use vstd::prelude::*;

verus! {

/// Length of one countdown step, in nanoseconds: the countdown loses one unit per whole second.
pub const DELAY_INTERVAL_NANOS: u64 = 1_000_000_000;

/// Nanoseconds in one second, used to turn an instruction rate into a waiting interval.
pub const NANOS_PER_SECOND: u64 = 1_000_000_000;

/// The instruction-rate clock. Clock readings are injected as nanoseconds on a monotonic clock.
pub struct MainTimer {
    hz: u16,
    last_tick: u64,
}

/// What a `MainTimer` holds: its rate and the clock reading of its last tick.
pub struct MainTimerView {
    pub hz: u16,
    pub last_tick: u64,
}

impl View for MainTimer {
    type V = MainTimerView;

    closed spec fn view(&self) -> MainTimerView {
        MainTimerView { hz: self.hz, last_tick: self.last_tick }
    }
}

impl MainTimer {
    pub open spec fn wf(&self) -> bool {
        self@.hz > 0
    }

    /// A clock running at `hz` instructions per second, whose last tick is `now`.
    pub fn new(hz: u16, now: u64) -> (r: MainTimer)
        requires
            hz > 0,
        ensures
            r.wf(),
            r@ == (MainTimerView { hz, last_tick: now }),
    {
        MainTimer { hz, last_tick: now }
    }

    /// Records `now` as the time of the last tick.
    pub fn reset(&mut self, now: u64)
        ensures
            final(self)@ == (MainTimerView { hz: old(self)@.hz, last_tick: now }),
    {
        self.last_tick = now;
    }

    /// The fixed wait between two instructions, in nanoseconds: one second divided by the rate.
    pub fn interval_nanos(&self) -> (r: u64)
        requires
            self.wf(),
        ensures
            r as int == NANOS_PER_SECOND as int / self@.hz as int,
    {
        NANOS_PER_SECOND / (self.hz as u64)
    }
}

/// The countdown timer, decremented by the whole seconds elapsed on the injected clock.
pub struct DelayTimer {
    last_tick: u64,
    value: u8,
}

/// What a `DelayTimer` holds: the clock reading of its last counted tick and its current value.
pub struct DelayTimerView {
    pub last_tick: u64,
    pub value: u8,
}

impl View for DelayTimer {
    type V = DelayTimerView;

    closed spec fn view(&self) -> DelayTimerView {
        DelayTimerView { last_tick: self.last_tick, value: self.value }
    }
}

/// The timer after being armed with `value` at time `now`: a stopped timer restarts its
/// second count at `now`, a running one keeps counting from its last tick.
pub open spec fn delay_set(t: DelayTimerView, value: u8, now: u64) -> DelayTimerView {
    DelayTimerView { last_tick: if t.value == 0 { now } else { t.last_tick }, value }
}

/// Whole seconds elapsed between the last tick and `now` (zero if the clock reads earlier).
pub open spec fn whole_seconds(t: DelayTimerView, now: u64) -> int {
    if now >= t.last_tick {
        (now - t.last_tick) / (DELAY_INTERVAL_NANOS as int)
    } else {
        0
    }
}

/// The timer after an update at time `now`: a running timer loses the whole seconds elapsed
/// since its last tick, never going below zero, and moves its last tick forward by them.
pub open spec fn delay_update(t: DelayTimerView, now: u64) -> DelayTimerView {
    let n = whole_seconds(t, now);
    if t.value > 0 && n >= 1 {
        DelayTimerView {
            last_tick: (t.last_tick + n * DELAY_INTERVAL_NANOS) as u64,
            value: (if n >= t.value { 0 } else { t.value - n }) as u8,
        }
    } else {
        t
    }
}

impl DelayTimer {
    /// A stopped timer reading zero.
    pub fn new() -> (r: DelayTimer)
        ensures
            r@.value == 0,
    {
        DelayTimer { last_tick: 0, value: 0 }
    }

    /// Whether the timer is still counting down.
    fn is_running(&self) -> (r: bool)
        ensures
            r == (self@.value > 0),
    {
        self.value > 0
    }

    /// Arms the timer with `value` at time `now`.
    pub fn set(&mut self, value: u8, now: u64)
        ensures
            final(self)@ == delay_set(old(self)@, value, now),
    {
        if !self.is_running() {
            self.last_tick = now;
        }
        self.value = value;
    }

    /// The current value.
    pub fn get(&self) -> (r: u8)
        ensures
            r == self@.value,
    {
        self.value
    }

    /// Counts down by the whole seconds elapsed up to `now`.
    pub fn update(&mut self, now: u64)
        ensures
            final(self)@ == delay_update(old(self)@, now),
            final(self)@.value <= old(self)@.value,
    {
        if self.is_running() && now >= self.last_tick {
            let elapsed = now - self.last_tick;
            if elapsed >= DELAY_INTERVAL_NANOS {
                let whole: u64 = elapsed / DELAY_INTERVAL_NANOS;
                assert(whole * DELAY_INTERVAL_NANOS <= elapsed) by (nonlinear_arith)
                    requires
                        whole == elapsed / DELAY_INTERVAL_NANOS,
                        DELAY_INTERVAL_NANOS > 0,
                ;
                assert(whole >= 1) by (nonlinear_arith)
                    requires
                        whole == elapsed / DELAY_INTERVAL_NANOS,
                        elapsed >= DELAY_INTERVAL_NANOS,
                        DELAY_INTERVAL_NANOS > 0,
                ;
                let next_tick = self.last_tick + whole * DELAY_INTERVAL_NANOS;
                let step: u8 = if whole >= self.value as u64 {
                    self.value
                } else {
                    whole as u8
                };
                self.value = self.value - step;
                self.last_tick = next_tick;
            }
        }
    }
}

/// A countdown armed with `value` at time `armed`, and updated at any time at least `value`
/// seconds later, reads zero; its value never grows through an update. The clock is monotonic:
/// the timer's last tick is no later than the arming time.
pub proof fn lemma_countdown_expires(t: DelayTimerView, value: u8, armed: u64, later: u64)
    requires
        t.last_tick <= armed,
        later >= armed + value * DELAY_INTERVAL_NANOS,
    ensures
        delay_update(delay_set(t, value, armed), later).value == 0,
        delay_update(delay_set(t, value, armed), later).value <= value,
{
    let s = delay_set(t, value, armed);
    let d = later - s.last_tick;
    assert(d >= value * DELAY_INTERVAL_NANOS);
    assert(d / (DELAY_INTERVAL_NANOS as int) >= value) by (nonlinear_arith)
        requires
            d >= value * DELAY_INTERVAL_NANOS,
            DELAY_INTERVAL_NANOS > 0,
    ;
}

} // verus!
