use vstd::prelude::*;

verus! {

/// Steps of the triangle channel's waveform.
pub const TRIANGLE_STEPS: usize = 32;

/// The length, in half frames, that the top five bits of a length write select.
pub open spec fn length_table(i: u8) -> u8 {
    match i {
        0 => 10,
        1 => 254,
        2 => 20,
        3 => 2,
        4 => 40,
        5 => 4,
        6 => 80,
        7 => 6,
        8 => 160,
        9 => 8,
        10 => 60,
        11 => 10,
        12 => 14,
        13 => 12,
        14 => 26,
        15 => 14,
        16 => 12,
        17 => 16,
        18 => 24,
        19 => 18,
        20 => 48,
        21 => 20,
        22 => 96,
        23 => 22,
        24 => 192,
        25 => 24,
        26 => 72,
        27 => 26,
        28 => 16,
        29 => 28,
        30 => 32,
        _ => 30,
    }
}

fn length_of(i: u8) -> (r: u8)
    ensures
        r == length_table(i),
{
    match i {
        0 => 10,
        1 => 254,
        2 => 20,
        3 => 2,
        4 => 40,
        5 => 4,
        6 => 80,
        7 => 6,
        8 => 160,
        9 => 8,
        10 => 60,
        11 => 10,
        12 => 14,
        13 => 12,
        14 => 26,
        15 => 14,
        16 => 12,
        17 => 16,
        18 => 24,
        19 => 18,
        20 => 48,
        21 => 20,
        22 => 96,
        23 => 22,
        24 => 192,
        25 => 24,
        26 => 72,
        27 => 26,
        28 => 16,
        29 => 28,
        30 => 32,
        _ => 30,
    }
}

/// The triangle channel's output level at step `step`: down from 15 to 0, then
/// up from 0 to 15.
pub open spec fn triangle_level(step: int) -> u8 {
    if step < 16 {
        (15 - step) as u8
    } else {
        (step - 16) as u8
    }
}

/// A divider that moves a waveform on by one step each time it runs out.
pub struct Sequencer {
    pub counter: u16,
    pub period: u16,
    pub steps: usize,
    pub current_step: usize,
}

impl Sequencer {
    /// The current step lies within the waveform.
    pub open spec fn wf(&self) -> bool {
        self.current_step < self.steps
    }

    /// A sequencer over `steps` steps, at step 0 with period 0. Only one with
    /// at least one step can tick.
    pub fn new(steps: usize) -> (r: Sequencer)
        ensures
            r.wf() == (steps > 0),
            r.counter == 0,
            r.period == 0,
            r.steps == steps,
            r.current_step == 0,
    {
        Sequencer { counter: 0, period: 0, current_step: 0, steps }
    }

    /// One clock: a counter at 0 reloads from the period and, if `step_enabled`,
    /// moves to the next step (wrapping after the last); otherwise the counter
    /// counts down. Returns whether the counter ran out.
    pub fn tick(&mut self, step_enabled: bool) -> (r: bool)
        requires
            old(self).wf(),
        ensures
            final(self).wf(),
            r == (old(self).counter == 0),
            final(self).period == old(self).period,
            final(self).steps == old(self).steps,
            final(self).counter == if r { old(self).period } else { (old(self).counter - 1) as u16 },
            final(self).current_step == if r && step_enabled {
                ((old(self).current_step + 1) % old(self).steps as int) as usize
            } else {
                old(self).current_step
            },
    {
        if self.counter == 0 {
            self.counter = self.period;
            if step_enabled {
                self.current_step = (self.current_step + 1) % self.steps;
            }
            true
        } else {
            self.counter = self.counter - 1;
            false
        }
    }

    /// Replaces the low byte of the period.
    pub fn set_period_low(&mut self, value: u8)
        ensures
            final(self).period == old(self).period / 256 * 256 + value,
            final(self).counter == old(self).counter,
            final(self).steps == old(self).steps,
            final(self).current_step == old(self).current_step,
    {
        self.period = self.period / 256 * 256 + value as u16;
    }
}

/// Counts down how long a channel keeps sounding; a disabled channel is silent.
pub struct LengthCounter {
    pub enabled: bool,
    pub counter: u8,
}

impl LengthCounter {
    /// A disabled counter at 0.
    pub fn new() -> (r: LengthCounter)
        ensures
            !r.enabled,
            r.counter == 0,
    {
        LengthCounter { enabled: false, counter: 0 }
    }

    /// Loads the length that the top five bits of `value` select, if enabled.
    pub fn write_register(&mut self, value: u8)
        ensures
            final(self).enabled == old(self).enabled,
            final(self).counter == if old(self).enabled { length_table((value / 8) as u8) } else { old(self).counter },
    {
        if self.enabled {
            self.counter = length_of(value / 8);
        }
    }

    /// Whether the counter has not run out.
    pub fn active(&self) -> (r: bool)
        ensures
            r == (self.counter > 0),
    {
        self.counter > 0
    }

    /// Whether the channel still sounds.
    pub fn playing(&self) -> (r: bool)
        ensures
            r == (self.counter > 0),
    {
        self.counter > 0
    }

    /// Enables or disables the counter; disabling it silences the channel at once.
    pub fn set_enabled(&mut self, value: bool)
        ensures
            final(self).enabled == value,
            final(self).counter == if value { old(self).counter } else { 0 },
    {
        self.enabled = value;
        if !value {
            self.counter = 0;
        }
    }
}

/// The triangle-wave channel of the audio unit, with its registers at
/// 0x4008-0x400B.
pub struct TriangleChannel {
    pub length_counter: LengthCounter,
    pub sequencer: Sequencer,
    pub linear_counter: u8,
    pub linear_counter_start: bool,
    pub linear_counter_period: u8,
    pub control_flag: bool,
}

impl TriangleChannel {
    pub open spec fn wf(&self) -> bool {
        self.sequencer.wf() && self.sequencer.steps == TRIANGLE_STEPS
    }

    /// Whether the channel moves its waveform: both counters are non-zero.
    pub open spec fn active_spec(&self) -> bool {
        self.length_counter.counter > 0 && self.linear_counter > 0
    }

    /// A silent channel at the first step of its waveform.
    pub fn new() -> (r: TriangleChannel)
        ensures
            r.wf(),
            !r.length_counter.enabled && r.length_counter.counter == 0,
            r.sequencer.counter == 0 && r.sequencer.period == 0 && r.sequencer.current_step == 0,
            r.linear_counter == 0,
            !r.linear_counter_start,
            r.linear_counter_period == 0,
            !r.control_flag,
    {
        TriangleChannel {
            length_counter: LengthCounter::new(),
            sequencer: Sequencer::new(TRIANGLE_STEPS),
            linear_counter: 0,
            control_flag: false,
            linear_counter_period: 0,
            linear_counter_start: false,
        }
    }

    /// Writes one of the channel's registers: 0x4008 sets the control flag (bit
    /// 7) and the linear counter's reload value (bits 0-6); 0x4009 is unused;
    /// 0x400A sets the low byte of the period; 0x400B loads the length counter
    /// and asks for a reload of the linear counter.
    pub fn write_register(&mut self, address: u16, value: u8)
        requires
            0x4008 <= address <= 0x400B,
            old(self).wf(),
        ensures
            final(self).wf(),
            address == 0x4008 ==> *final(self) == (TriangleChannel {
                control_flag: value >= 0x80,
                linear_counter_period: value % 128,
                ..*old(self)
            }),
            address == 0x4009 ==> *final(self) == *old(self),
            address == 0x400A ==> final(self).sequencer.period == old(self).sequencer.period / 256 * 256 + value
                && final(self).sequencer.counter == old(self).sequencer.counter
                && final(self).sequencer.current_step == old(self).sequencer.current_step
                && final(self).length_counter == old(self).length_counter
                && final(self).linear_counter == old(self).linear_counter
                && final(self).linear_counter_start == old(self).linear_counter_start
                && final(self).linear_counter_period == old(self).linear_counter_period
                && final(self).control_flag == old(self).control_flag,
            address == 0x400B ==> final(self).linear_counter_start
                && final(self).length_counter.enabled == old(self).length_counter.enabled
                && final(self).length_counter.counter == (if old(self).length_counter.enabled {
                    length_table((value / 8) as u8)
                } else {
                    old(self).length_counter.counter
                })
                && final(self).sequencer == old(self).sequencer
                && final(self).linear_counter == old(self).linear_counter
                && final(self).linear_counter_period == old(self).linear_counter_period
                && final(self).control_flag == old(self).control_flag,
    {
        if address == 0x4008 {
            self.control_flag = value >= 0x80;
            self.linear_counter_period = value % 128;
        } else if address == 0x400A {
            self.sequencer.set_period_low(value);
        } else if address == 0x400B {
            self.length_counter.write_register(value);
            self.linear_counter_start = true;
        }
    }

    /// The current output level: the waveform's level at the current step while
    /// the channel is active and its period is above 2, else 0.
    pub fn sample(&self) -> (r: u8)
        requires
            self.wf(),
        ensures
            r == if self.active_spec() && self.sequencer.period > 2 {
                triangle_level(self.sequencer.current_step as int)
            } else {
                0
            },
    {
        if self.active() && self.sequencer.period > 2 {
            let step = self.sequencer.current_step;
            if step < 16 {
                (15 - step) as u8
            } else {
                (step - 16) as u8
            }
        } else {
            0
        }
    }

    /// One timer clock: the sequencer runs, and moves its step only while the
    /// channel is active.
    pub fn tick_sequencer(&mut self)
        requires
            old(self).wf(),
        ensures
            final(self).wf(),
            final(self).sequencer.counter == if old(self).sequencer.counter == 0 {
                old(self).sequencer.period
            } else {
                (old(self).sequencer.counter - 1) as u16
            },
            final(self).sequencer.period == old(self).sequencer.period,
            final(self).sequencer.current_step == if old(self).sequencer.counter == 0 && old(self).active_spec() {
                ((old(self).sequencer.current_step + 1) % TRIANGLE_STEPS as int) as usize
            } else {
                old(self).sequencer.current_step
            },
            final(self).length_counter == old(self).length_counter,
            final(self).linear_counter == old(self).linear_counter,
            final(self).linear_counter_start == old(self).linear_counter_start,
            final(self).linear_counter_period == old(self).linear_counter_period,
            final(self).control_flag == old(self).control_flag,
    {
        let sequencer_active = self.active();
        self.sequencer.tick(sequencer_active);
    }

    /// One quarter-frame clock of the linear counter: a pending reload loads the
    /// reload value, else a non-zero counter counts down; the reload request is
    /// dropped unless the control flag is set.
    pub fn tick_quarter_frame(&mut self)
        ensures
            final(self).linear_counter == if old(self).linear_counter_start {
                old(self).linear_counter_period
            } else if old(self).linear_counter > 0 {
                (old(self).linear_counter - 1) as u8
            } else {
                0
            },
            final(self).linear_counter_start == (old(self).linear_counter_start && old(self).control_flag),
            final(self).length_counter == old(self).length_counter,
            final(self).sequencer == old(self).sequencer,
            final(self).linear_counter_period == old(self).linear_counter_period,
            final(self).control_flag == old(self).control_flag,
    {
        if self.linear_counter_start {
            self.linear_counter = self.linear_counter_period;
        } else if self.linear_counter > 0 {
            self.linear_counter = self.linear_counter - 1;
        }
        if !self.control_flag {
            self.linear_counter_start = false;
        }
    }

    fn active(&self) -> (r: bool)
        ensures
            r == self.active_spec(),
    {
        self.length_counter.active() && self.linear_counter > 0
    }

    /// Whether the length counter still runs.
    pub fn playing(&mut self) -> (r: bool)
        ensures
            r == (old(self).length_counter.counter > 0),
            *final(self) == *old(self),
    {
        self.length_counter.playing()
    }

    /// Enables or disables the channel's length counter.
    pub fn set_enabled(&mut self, value: bool)
        ensures
            final(self).length_counter.enabled == value,
            final(self).length_counter.counter == if value { old(self).length_counter.counter } else { 0 },
            final(self).sequencer == old(self).sequencer,
            final(self).linear_counter == old(self).linear_counter,
            final(self).linear_counter_start == old(self).linear_counter_start,
            final(self).linear_counter_period == old(self).linear_counter_period,
            final(self).control_flag == old(self).control_flag,
    {
        self.length_counter.set_enabled(value);
    }
}

} // verus!
