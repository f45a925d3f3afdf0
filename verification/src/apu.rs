//! The audio processor: two pulse channels, a triangle, a noise channel and
//! a DMC stub, sequenced by the frame counter and sampled at 44.1 kHz.

use vstd::prelude::*;

verus! {

/// NTSC CPU clock and output sample rate, as an exact ratio: the sample
/// accumulator advances by `SAMPLE_ACC_STEP` per CPU cycle and one sample is
/// emitted each time it crosses `SAMPLE_ACC_PERIOD` (1789773 / 44100 cycles,
/// reduced by their common factor).
pub const SAMPLE_ACC_STEP: u32 = 14700;
pub const SAMPLE_ACC_PERIOD: u32 = 596591;

/// The note-length lookup shared by every channel ($4003/$4007/$400B/$400F
/// bits 3..7).
pub open spec fn length_value(idx: u8) -> u8 {
    if idx == 0 { 10u8 } else if idx == 1 { 254u8 } else if idx == 2 { 20u8 }
    else if idx == 3 { 2u8 } else if idx == 4 { 40u8 } else if idx == 5 { 4u8 }
    else if idx == 6 { 80u8 } else if idx == 7 { 6u8 } else if idx == 8 { 160u8 }
    else if idx == 9 { 8u8 } else if idx == 10 { 60u8 } else if idx == 11 { 10u8 }
    else if idx == 12 { 14u8 } else if idx == 13 { 12u8 } else if idx == 14 { 26u8 }
    else if idx == 15 { 14u8 } else if idx == 16 { 12u8 } else if idx == 17 { 16u8 }
    else if idx == 18 { 24u8 } else if idx == 19 { 18u8 } else if idx == 20 { 48u8 }
    else if idx == 21 { 20u8 } else if idx == 22 { 96u8 } else if idx == 23 { 22u8 }
    else if idx == 24 { 192u8 } else if idx == 25 { 24u8 } else if idx == 26 { 72u8 }
    else if idx == 27 { 26u8 } else if idx == 28 { 16u8 } else if idx == 29 { 28u8 }
    else if idx == 30 { 32u8 } else { 30u8 }
}

fn length_table(idx: u8) -> (r: u8)
    requires
        idx < 32,
    ensures
        r == length_value(idx),
{
    if idx == 0 { 10 } else if idx == 1 { 254 } else if idx == 2 { 20 }
    else if idx == 3 { 2 } else if idx == 4 { 40 } else if idx == 5 { 4 }
    else if idx == 6 { 80 } else if idx == 7 { 6 } else if idx == 8 { 160 }
    else if idx == 9 { 8 } else if idx == 10 { 60 } else if idx == 11 { 10 }
    else if idx == 12 { 14 } else if idx == 13 { 12 } else if idx == 14 { 26 }
    else if idx == 15 { 14 } else if idx == 16 { 12 } else if idx == 17 { 16 }
    else if idx == 18 { 24 } else if idx == 19 { 18 } else if idx == 20 { 48 }
    else if idx == 21 { 20 } else if idx == 22 { 96 } else if idx == 23 { 22 }
    else if idx == 24 { 192 } else if idx == 25 { 24 } else if idx == 26 { 72 }
    else if idx == 27 { 26 } else if idx == 28 { 16 } else if idx == 29 { 28 }
    else if idx == 30 { 32 } else { 30 }
}

/// NTSC noise timer periods ($400E bits 0..3).
pub open spec fn noise_period_value(idx: u8) -> u16 {
    if idx == 0 { 4u16 } else if idx == 1 { 8u16 } else if idx == 2 { 16u16 }
    else if idx == 3 { 32u16 } else if idx == 4 { 64u16 } else if idx == 5 { 96u16 }
    else if idx == 6 { 128u16 } else if idx == 7 { 160u16 } else if idx == 8 { 202u16 }
    else if idx == 9 { 254u16 } else if idx == 10 { 380u16 } else if idx == 11 { 508u16 }
    else if idx == 12 { 762u16 } else if idx == 13 { 1016u16 } else if idx == 14 { 2034u16 }
    else { 4068u16 }
}

fn noise_period_table(idx: u8) -> (r: u16)
    requires
        idx < 16,
    ensures
        r == noise_period_value(idx),
{
    if idx == 0 { 4 } else if idx == 1 { 8 } else if idx == 2 { 16 }
    else if idx == 3 { 32 } else if idx == 4 { 64 } else if idx == 5 { 96 }
    else if idx == 6 { 128 } else if idx == 7 { 160 } else if idx == 8 { 202 }
    else if idx == 9 { 254 } else if idx == 10 { 380 } else if idx == 11 { 508 }
    else if idx == 12 { 762 } else if idx == 13 { 1016 } else if idx == 14 { 2034 }
    else { 4068 }
}

/// The 32-step triangle wave: 15 down to 0, then 0 up to 15.
pub open spec fn triangle_wave_value(step: u8) -> u8 {
    if step < 16 {
        (15 - step) as u8
    } else {
        (step - 16) as u8
    }
}

fn triangle_wave_table(step: u8) -> (r: u8)
    requires
        step < 32,
    ensures
        r == triangle_wave_value(step),
{
    if step < 16 {
        15 - step
    } else {
        step - 16
    }
}

/// The duty cycles of the pulse channels, one bit per step.
pub open spec fn duty_mask(mode: u8) -> u8 {
    if mode == 0 { 0x02u8 } else if mode == 1 { 0x06u8 } else if mode == 2 { 0x1Eu8 } else {
        0xF9u8
    }
}

// ---------------------------------------------------------------------------
// Envelope
// ---------------------------------------------------------------------------

/// Volume envelope shared by the pulse and noise channels.
#[derive(Clone, Copy)]
pub struct Envelope {
    pub start: bool,
    pub loop_flag: bool,
    pub enabled: bool,
    pub period: u8,
    pub decay_level: u8,
    pub divider: u8,
    pub volume: u8,
}

/// Snapshot of an envelope for save states.
pub struct EnvelopeState {
    pub start: bool,
    pub loop_flag: bool,
    pub enabled: bool,
    pub period: u8,
    pub decay_level: u8,
    pub divider: u8,
    pub volume: u8,
}

pub open spec fn env_zero() -> Envelope {
    Envelope {
        start: false,
        loop_flag: false,
        enabled: false,
        period: 0,
        decay_level: 0,
        divider: 0,
        volume: 0,
    }
}

/// Register write: loop and constant-volume flags, period, and the start
/// flag that restarts the decay on the next quarter frame.
pub open spec fn env_after_write(e: Envelope, data: u8) -> Envelope {
    Envelope {
        loop_flag: data & 0x20 != 0,
        enabled: data & 0x10 == 0,
        period: data & 0x0F,
        volume: data & 0x0F,
        start: true,
        ..e
    }
}

/// Quarter-frame clock: restart, or divide down and decay (with looping).
pub open spec fn env_clocked(e: Envelope) -> Envelope {
    if e.start {
        Envelope { start: false, decay_level: 15, divider: e.period, ..e }
    } else if e.divider > 0 {
        Envelope { divider: (e.divider - 1) as u8, ..e }
    } else if e.decay_level > 0 {
        Envelope { divider: e.period, decay_level: (e.decay_level - 1) as u8, ..e }
    } else if e.loop_flag {
        Envelope { divider: e.period, decay_level: 15, ..e }
    } else {
        Envelope { divider: e.period, ..e }
    }
}

/// Decaying volume, or the constant volume when the envelope is disabled.
pub open spec fn env_output(e: Envelope) -> u8 {
    if e.enabled {
        e.decay_level
    } else {
        e.volume
    }
}

impl Envelope {
    pub fn write(&mut self, data: u8)
        ensures
            *final(self) == env_after_write(*old(self), data),
    {
        self.loop_flag = (data & 0x20) != 0;
        self.enabled = (data & 0x10) == 0;
        self.period = data & 0x0F;
        self.volume = self.period;
        self.start = true;
    }

    pub fn clock(&mut self)
        ensures
            *final(self) == env_clocked(*old(self)),
    {
        if self.start {
            self.start = false;
            self.decay_level = 15;
            self.divider = self.period;
        } else {
            if self.divider > 0 {
                self.divider -= 1;
            } else {
                self.divider = self.period;
                if self.decay_level > 0 {
                    self.decay_level -= 1;
                } else if self.loop_flag {
                    self.decay_level = 15;
                }
            }
        }
    }

    pub fn output(&self) -> (r: u8)
        ensures
            r == env_output(*self),
    {
        if self.enabled {
            self.decay_level
        } else {
            self.volume
        }
    }

    pub fn save_state(&self) -> (r: EnvelopeState)
        ensures
            env_matches_state(*self, r),
    {
        EnvelopeState {
            start: self.start,
            loop_flag: self.loop_flag,
            enabled: self.enabled,
            period: self.period,
            decay_level: self.decay_level,
            divider: self.divider,
            volume: self.volume,
        }
    }

    pub fn load_state(&mut self, state: &EnvelopeState)
        ensures
            env_matches_state(*final(self), *state),
    {
        self.start = state.start;
        self.loop_flag = state.loop_flag;
        self.enabled = state.enabled;
        self.period = state.period;
        self.decay_level = state.decay_level;
        self.divider = state.divider;
        self.volume = state.volume;
    }
}

pub open spec fn env_matches_state(e: Envelope, s: EnvelopeState) -> bool {
    &&& e.start == s.start
    &&& e.loop_flag == s.loop_flag
    &&& e.enabled == s.enabled
    &&& e.period == s.period
    &&& e.decay_level == s.decay_level
    &&& e.divider == s.divider
    &&& e.volume == s.volume
}

// ---------------------------------------------------------------------------
// Sweep
// ---------------------------------------------------------------------------

/// Pitch sweep unit of a pulse channel.
#[derive(Clone, Copy)]
pub struct Sweep {
    pub enabled: bool,
    pub negate: bool,
    pub reload: bool,
    pub period: u8,
    pub divider: u8,
    pub shift: u8,
}

/// Snapshot of a sweep unit for save states.
pub struct SweepState {
    pub enabled: bool,
    pub negate: bool,
    pub reload: bool,
    pub period: u8,
    pub divider: u8,
    pub shift: u8,
}

pub open spec fn sweep_zero() -> Sweep {
    Sweep { enabled: false, negate: false, reload: false, period: 0, divider: 0, shift: 0 }
}

pub open spec fn sweep_after_write(s: Sweep, data: u8) -> Sweep {
    Sweep {
        enabled: data & 0x80 != 0,
        period: (data & 0x70) >> 4u8,
        negate: data & 0x08 != 0,
        shift: data & 0x07,
        reload: true,
        divider: s.divider,
    }
}

/// The period the sweep is aiming for. Channel 1 subtracts one more than
/// channel 2 (one's- versus two's-complement negation); the result can be
/// negative for a negating sweep.
pub open spec fn sweep_target(s: Sweep, period: u16, channel_num: u8) -> int {
    let change = period >> s.shift;
    if s.negate {
        period - change - (if channel_num == 1 { 1int } else { 0int })
    } else {
        period + change
    }
}

/// A sweep mutes its channel when the period is already below 8, when the
/// target overshoots the 11-bit range, or when a negated target underflows.
pub open spec fn sweep_mutes(s: Sweep, period: u16, channel_num: u8) -> bool {
    ||| period < 8
    ||| sweep_target(s, period, channel_num) > 0x7FF
    ||| sweep_target(s, period, channel_num) < 0
}

/// The period is rewritten only on an enabled, unmuted sweep with a nonzero
/// shift whose divider has run out.
pub open spec fn sweep_writes_period(s: Sweep, period: u16, channel_num: u8) -> bool {
    s.divider == 0 && s.enabled && s.shift > 0 && !sweep_mutes(s, period, channel_num)
}

pub open spec fn sweep_period_after_clock(s: Sweep, period: u16, channel_num: u8) -> u16 {
    if sweep_writes_period(s, period, channel_num) {
        sweep_target(s, period, channel_num) as u16
    } else {
        period
    }
}

pub open spec fn sweep_after_clock(s: Sweep) -> Sweep {
    if s.divider == 0 || s.reload {
        Sweep { divider: s.period, reload: false, ..s }
    } else {
        Sweep { divider: (s.divider - 1) as u8, ..s }
    }
}

impl Sweep {
    pub fn write(&mut self, data: u8)
        ensures
            *final(self) == sweep_after_write(*old(self), data),
    {
        self.enabled = (data & 0x80) != 0;
        self.period = (data & 0x70) >> 4u8;
        self.negate = (data & 0x08) != 0;
        self.shift = data & 0x07;
        self.reload = true;
    }

    /// Half-frame clock. Returns whether the channel is muted; a muted or
    /// disabled sweep never touches the period (the boundary case
    /// `target > 0x7FF` in particular leaves it unchanged).
    pub fn clock(&mut self, timer_period: &mut u16, channel_num: u8) -> (muted: bool)
        requires
            *old(timer_period) <= 0x7FF,
            old(self).shift <= 7,
        ensures
            muted == sweep_mutes(*old(self), *old(timer_period), channel_num),
            *final(timer_period) == sweep_period_after_clock(
                *old(self),
                *old(timer_period),
                channel_num,
            ),
            *final(timer_period) <= 0x7FF,
            *final(self) == sweep_after_clock(*old(self)),
    {
        let mut muted = false;
        let change = *timer_period >> self.shift;
        proof {
            let p = *timer_period;
            let sh = self.shift;
            assert(p >> sh <= p) by (bit_vector);
        }

        if self.negate {
            let subtract_amount = change + if channel_num == 1 { 1u16 } else { 0u16 };
            if *timer_period < subtract_amount {
                muted = true;
            }
        }

        let target_ok: bool;
        let target_period: u16;
        if self.negate {
            let sub = change + if channel_num == 1 { 1u16 } else { 0u16 };
            if *timer_period >= sub {
                target_ok = true;
                target_period = *timer_period - sub;
            } else {
                target_ok = false;
                target_period = 0;
            }
        } else {
            target_ok = true;
            target_period = *timer_period + change;
        }

        if *timer_period < 8 || !target_ok || target_period > 0x7FF {
            muted = true;
        }

        if self.divider == 0 && self.enabled && self.shift > 0 && !muted {
            *timer_period = target_period;
        }

        if self.divider == 0 || self.reload {
            self.divider = self.period;
            self.reload = false;
        } else {
            self.divider -= 1;
        }
        muted
    }

    pub fn save_state(&self) -> (r: SweepState)
        ensures
            sweep_matches_state(*self, r),
    {
        SweepState {
            enabled: self.enabled,
            negate: self.negate,
            reload: self.reload,
            period: self.period,
            divider: self.divider,
            shift: self.shift,
        }
    }

    pub fn load_state(&mut self, state: &SweepState)
        ensures
            sweep_matches_state(*final(self), *state),
    {
        self.enabled = state.enabled;
        self.negate = state.negate;
        self.reload = state.reload;
        self.period = state.period;
        self.divider = state.divider;
        self.shift = state.shift;
    }
}

pub open spec fn sweep_matches_state(w: Sweep, s: SweepState) -> bool {
    &&& w.enabled == s.enabled
    &&& w.negate == s.negate
    &&& w.reload == s.reload
    &&& w.period == s.period
    &&& w.divider == s.divider
    &&& w.shift == s.shift
}

// ---------------------------------------------------------------------------
// Pulse
// ---------------------------------------------------------------------------

/// A square-wave channel.
#[derive(Clone, Copy)]
pub struct Pulse {
    pub enabled: bool,
    pub envelope: Envelope,
    pub sweep: Sweep,
    pub duty_mode: u8,
    pub duty_step: u8,
    pub timer_period: u16,
    pub timer_value: u16,
    pub length_counter: u8,
    pub length_counter_halt: bool,
    pub sweep_muted: bool,
}

/// Snapshot of a pulse channel for save states.
pub struct PulseState {
    pub enabled: bool,
    pub envelope: EnvelopeState,
    pub sweep: SweepState,
    pub duty_mode: u8,
    pub duty_step: u8,
    pub timer_period: u16,
    pub timer_value: u16,
    pub length_counter: u8,
    pub length_counter_halt: bool,
    pub sweep_muted: bool,
}

/// A silent, zeroed pulse channel.
pub open spec fn pulse_init() -> Pulse {
    Pulse {
        enabled: false,
        envelope: env_zero(),
        sweep: sweep_zero(),
        duty_mode: 0,
        duty_step: 0,
        timer_period: 0,
        timer_value: 0,
        length_counter: 0,
        length_counter_halt: false,
        sweep_muted: false,
    }
}

/// Value ranges kept by every register write and clock.
pub open spec fn pulse_wf(p: Pulse) -> bool {
    &&& p.timer_period <= 0x7FF
    &&& p.duty_step < 8
    &&& p.sweep.shift <= 7
}

/// Timer clock (every second CPU cycle): count down, and on underflow
/// reload and advance the duty step.
pub open spec fn pulse_timer_clocked(p: Pulse) -> Pulse {
    if p.timer_value > 0 {
        Pulse { timer_value: (p.timer_value - 1) as u16, ..p }
    } else {
        Pulse { timer_value: p.timer_period, duty_step: ((p.duty_step + 1) % 8) as u8, ..p }
    }
}

/// Length counters count down to silence unless halted.
pub open spec fn pulse_length_clocked(p: Pulse) -> Pulse {
    if !p.length_counter_halt && p.length_counter > 0 {
        Pulse { length_counter: (p.length_counter - 1) as u8, ..p }
    } else {
        p
    }
}

pub open spec fn pulse_sweep_clocked(p: Pulse, channel_num: u8) -> Pulse {
    Pulse {
        sweep: sweep_after_clock(p.sweep),
        timer_period: sweep_period_after_clock(p.sweep, p.timer_period, channel_num),
        sweep_muted: sweep_mutes(p.sweep, p.timer_period, channel_num),
        ..p
    }
}

/// The channel's current 4-bit output.
pub open spec fn pulse_output(p: Pulse) -> u8 {
    if !p.enabled || p.length_counter == 0 || (duty_mask(p.duty_mode) >> p.duty_step) & 1 == 0
        || p.timer_period < 8 || p.sweep_muted {
        0u8
    } else {
        env_output(p.envelope)
    }
}

pub open spec fn pulse_after_write_ctrl(p: Pulse, data: u8) -> Pulse {
    Pulse {
        duty_mode: (data & 0xC0) >> 6u8,
        length_counter_halt: data & 0x20 != 0,
        envelope: env_after_write(p.envelope, data),
        ..p
    }
}

pub open spec fn pulse_after_write_timer_lo(p: Pulse, data: u8) -> Pulse {
    Pulse { timer_period: ((p.timer_period / 0x100) * 0x100 + data) as u16, ..p }
}

/// $4003/$4007: top three period bits, length reload (only while enabled),
/// timer restart, envelope restart, duty phase reset.
pub open spec fn pulse_after_write_timer_hi(p: Pulse, data: u8) -> Pulse {
    let period = (p.timer_period % 0x100 + (data % 8) * 0x100) as u16;
    Pulse {
        timer_period: period,
        length_counter: if p.enabled { length_value(data / 8) } else { p.length_counter },
        timer_value: period,
        envelope: Envelope { start: true, ..p.envelope },
        duty_step: 0,
        ..p
    }
}

/// $4015 enable bit: disabling forces the length counter to zero.
pub open spec fn pulse_after_set_enabled(p: Pulse, enabled: bool) -> Pulse {
    Pulse {
        enabled,
        length_counter: if enabled { p.length_counter } else { 0u8 },
        ..p
    }
}

impl Pulse {
    pub fn new() -> (r: Pulse)
        ensures
            pulse_wf(r),
            r == pulse_init(),
    {
        Pulse {
            enabled: false,
            envelope: Envelope {
                start: false,
                loop_flag: false,
                enabled: false,
                period: 0,
                decay_level: 0,
                divider: 0,
                volume: 0,
            },
            sweep: Sweep {
                enabled: false,
                negate: false,
                reload: false,
                period: 0,
                divider: 0,
                shift: 0,
            },
            duty_mode: 0,
            duty_step: 0,
            timer_period: 0,
            timer_value: 0,
            length_counter: 0,
            length_counter_halt: false,
            sweep_muted: false,
        }
    }

    pub fn clock_timer(&mut self)
        requires
            pulse_wf(*old(self)),
        ensures
            pulse_wf(*final(self)),
            *final(self) == pulse_timer_clocked(*old(self)),
    {
        if self.timer_value > 0 {
            self.timer_value -= 1;
        } else {
            self.timer_value = self.timer_period;
            self.duty_step = (self.duty_step + 1) % 8;
        }
    }

    pub fn clock_length_counter(&mut self)
        ensures
            *final(self) == pulse_length_clocked(*old(self)),
    {
        if !self.length_counter_halt && self.length_counter > 0 {
            self.length_counter -= 1;
        }
    }

    pub fn clock_sweep(&mut self, channel_num: u8)
        requires
            pulse_wf(*old(self)),
        ensures
            pulse_wf(*final(self)),
            *final(self) == pulse_sweep_clocked(*old(self), channel_num),
    {
        let mut period = self.timer_period;
        let muted = self.sweep.clock(&mut period, channel_num);
        self.timer_period = period;
        self.sweep_muted = muted;
    }

    pub fn clock_envelope(&mut self)
        ensures
            *final(self) == (Pulse { envelope: env_clocked(old(self).envelope), ..*old(self) }),
    {
        self.envelope.clock();
    }

    pub fn output(&self) -> (r: u8)
        requires
            pulse_wf(*self),
        ensures
            r == pulse_output(*self),
    {
        let duty = if self.duty_mode == 0 {
            0x02u8
        } else if self.duty_mode == 1 {
            0x06u8
        } else if self.duty_mode == 2 {
            0x1Eu8
        } else {
            0xF9u8
        };
        if !self.enabled || self.length_counter == 0 || (duty >> self.duty_step) & 1 == 0
            || self.timer_period < 8 || self.sweep_muted {
            0
        } else {
            self.envelope.output()
        }
    }

    pub fn write_ctrl(&mut self, data: u8)
        requires
            pulse_wf(*old(self)),
        ensures
            pulse_wf(*final(self)),
            *final(self) == pulse_after_write_ctrl(*old(self), data),
    {
        self.duty_mode = (data & 0xC0) >> 6u8;
        self.length_counter_halt = (data & 0x20) != 0;
        self.envelope.write(data);
    }

    pub fn write_sweep(&mut self, data: u8)
        requires
            pulse_wf(*old(self)),
        ensures
            pulse_wf(*final(self)),
            *final(self) == (Pulse { sweep: sweep_after_write(old(self).sweep, data), ..*old(self) }),
    {
        self.sweep.write(data);
        proof {
            let d = data;
            assert(d & 0x07 <= 7) by (bit_vector);
        }
    }

    pub fn write_timer_lo(&mut self, data: u8)
        requires
            pulse_wf(*old(self)),
        ensures
            pulse_wf(*final(self)),
            *final(self) == pulse_after_write_timer_lo(*old(self), data),
    {
        self.timer_period = (self.timer_period / 0x100) * 0x100 + (data as u16);
    }

    pub fn write_timer_hi(&mut self, data: u8)
        requires
            pulse_wf(*old(self)),
        ensures
            pulse_wf(*final(self)),
            *final(self) == pulse_after_write_timer_hi(*old(self), data),
    {
        self.timer_period = self.timer_period % 0x100 + ((data % 8) as u16) * 0x100;
        if self.enabled {
            self.length_counter = length_table(data / 8);
        }
        self.timer_value = self.timer_period;
        self.envelope.start = true;
        self.duty_step = 0;
    }

    pub fn set_enabled(&mut self, enabled: bool)
        ensures
            *final(self) == pulse_after_set_enabled(*old(self), enabled),
    {
        self.enabled = enabled;
        if !enabled {
            self.length_counter = 0;
        }
    }

    pub fn save_state(&self) -> (r: PulseState)
        ensures
            pulse_matches_state(*self, r),
    {
        PulseState {
            enabled: self.enabled,
            envelope: self.envelope.save_state(),
            sweep: self.sweep.save_state(),
            duty_mode: self.duty_mode,
            duty_step: self.duty_step,
            timer_period: self.timer_period,
            timer_value: self.timer_value,
            length_counter: self.length_counter,
            length_counter_halt: self.length_counter_halt,
            sweep_muted: self.sweep_muted,
        }
    }

    /// Restore a snapshot; the stored ranges must be ones the channel can
    /// actually reach.
    pub fn load_state(&mut self, state: &PulseState)
        requires
            state.timer_period <= 0x7FF,
            state.duty_step < 8,
            state.sweep.shift <= 7,
        ensures
            pulse_wf(*final(self)),
            pulse_matches_state(*final(self), *state),
    {
        self.enabled = state.enabled;
        self.envelope.load_state(&state.envelope);
        self.sweep.load_state(&state.sweep);
        self.duty_mode = state.duty_mode;
        self.duty_step = state.duty_step;
        self.timer_period = state.timer_period;
        self.timer_value = state.timer_value;
        self.length_counter = state.length_counter;
        self.length_counter_halt = state.length_counter_halt;
        self.sweep_muted = state.sweep_muted;
    }
}

pub open spec fn pulse_matches_state(p: Pulse, s: PulseState) -> bool {
    &&& p.enabled == s.enabled
    &&& env_matches_state(p.envelope, s.envelope)
    &&& sweep_matches_state(p.sweep, s.sweep)
    &&& p.duty_mode == s.duty_mode
    &&& p.duty_step == s.duty_step
    &&& p.timer_period == s.timer_period
    &&& p.timer_value == s.timer_value
    &&& p.length_counter == s.length_counter
    &&& p.length_counter_halt == s.length_counter_halt
    &&& p.sweep_muted == s.sweep_muted
}

// ---------------------------------------------------------------------------
// Triangle
// ---------------------------------------------------------------------------

/// The triangle channel: a 32-step wave gated by both the length and the
/// linear counter.
#[derive(Clone, Copy)]
pub struct Triangle {
    pub enabled: bool,
    pub timer_period: u16,
    pub timer_value: u16,
    pub duty_step: u8,
    pub length_counter: u8,
    pub length_counter_halt: bool,
    pub linear_counter: u8,
    pub linear_counter_period: u8,
    pub linear_counter_reload: bool,
}

/// Snapshot of the triangle channel for save states.
pub struct TriangleState {
    pub enabled: bool,
    pub timer_period: u16,
    pub timer_value: u16,
    pub duty_step: u8,
    pub length_counter: u8,
    pub length_counter_halt: bool,
    pub linear_counter: u8,
    pub linear_counter_period: u8,
    pub linear_counter_reload: bool,
}

/// A silent, zeroed triangle channel.
pub open spec fn triangle_init() -> Triangle {
    Triangle {
        enabled: false,
        timer_period: 0,
        timer_value: 0,
        duty_step: 0,
        length_counter: 0,
        length_counter_halt: false,
        linear_counter: 0,
        linear_counter_period: 0,
        linear_counter_reload: false,
    }
}

pub open spec fn triangle_wf(t: Triangle) -> bool {
    &&& t.timer_period <= 0x7FF
    &&& t.duty_step < 32
}

/// Timer clock (every CPU cycle). The wave only advances while both
/// counters are live and the period is above the ultrasonic cutoff.
pub open spec fn triangle_timer_clocked(t: Triangle) -> Triangle {
    if t.timer_value > 0 {
        Triangle { timer_value: (t.timer_value - 1) as u16, ..t }
    } else if t.length_counter > 0 && t.linear_counter > 0 && t.timer_period > 1 {
        Triangle { timer_value: t.timer_period, duty_step: ((t.duty_step + 1) % 32) as u8, ..t }
    } else {
        Triangle { timer_value: t.timer_period, ..t }
    }
}

pub open spec fn triangle_length_clocked(t: Triangle) -> Triangle {
    if !t.length_counter_halt && t.length_counter > 0 {
        Triangle { length_counter: (t.length_counter - 1) as u8, ..t }
    } else {
        t
    }
}

/// Quarter-frame linear counter: reload while flagged, else count down; the
/// reload flag drops only when the halt bit is clear.
pub open spec fn triangle_linear_clocked(t: Triangle) -> Triangle {
    let t1 = if t.linear_counter_reload {
        Triangle { linear_counter: t.linear_counter_period, ..t }
    } else if t.linear_counter > 0 {
        Triangle { linear_counter: (t.linear_counter - 1) as u8, ..t }
    } else {
        t
    };
    if !t1.length_counter_halt {
        Triangle { linear_counter_reload: false, ..t1 }
    } else {
        t1
    }
}

pub open spec fn triangle_output(t: Triangle) -> u8 {
    if !t.enabled || t.length_counter == 0 || t.linear_counter == 0 {
        0u8
    } else {
        triangle_wave_value(t.duty_step)
    }
}

pub open spec fn triangle_after_write_ctrl(t: Triangle, data: u8) -> Triangle {
    Triangle {
        length_counter_halt: data & 0x80 != 0,
        linear_counter_period: data & 0x7F,
        ..t
    }
}

pub open spec fn triangle_after_write_timer_lo(t: Triangle, data: u8) -> Triangle {
    Triangle { timer_period: ((t.timer_period / 0x100) * 0x100 + data) as u16, ..t }
}

pub open spec fn triangle_after_write_timer_hi(t: Triangle, data: u8) -> Triangle {
    Triangle {
        timer_period: (t.timer_period % 0x100 + (data % 8) * 0x100) as u16,
        length_counter: if t.enabled { length_value(data / 8) } else { t.length_counter },
        linear_counter_reload: true,
        ..t
    }
}

pub open spec fn triangle_after_set_enabled(t: Triangle, enabled: bool) -> Triangle {
    Triangle {
        enabled,
        length_counter: if enabled { t.length_counter } else { 0u8 },
        ..t
    }
}

impl Triangle {
    pub fn new() -> (r: Triangle)
        ensures
            triangle_wf(r),
            r == triangle_init(),
    {
        Triangle {
            enabled: false,
            timer_period: 0,
            timer_value: 0,
            duty_step: 0,
            length_counter: 0,
            length_counter_halt: false,
            linear_counter: 0,
            linear_counter_period: 0,
            linear_counter_reload: false,
        }
    }

    pub fn clock_timer(&mut self)
        requires
            triangle_wf(*old(self)),
        ensures
            triangle_wf(*final(self)),
            *final(self) == triangle_timer_clocked(*old(self)),
    {
        if self.timer_value > 0 {
            self.timer_value -= 1;
        } else {
            self.timer_value = self.timer_period;
            if self.length_counter > 0 && self.linear_counter > 0 && self.timer_period > 1 {
                self.duty_step = (self.duty_step + 1) % 32;
            }
        }
    }

    pub fn clock_length_counter(&mut self)
        ensures
            *final(self) == triangle_length_clocked(*old(self)),
    {
        if !self.length_counter_halt && self.length_counter > 0 {
            self.length_counter -= 1;
        }
    }

    pub fn clock_linear_counter(&mut self)
        ensures
            *final(self) == triangle_linear_clocked(*old(self)),
    {
        if self.linear_counter_reload {
            self.linear_counter = self.linear_counter_period;
        } else if self.linear_counter > 0 {
            self.linear_counter -= 1;
        }
        if !self.length_counter_halt {
            self.linear_counter_reload = false;
        }
    }

    pub fn output(&self) -> (r: u8)
        requires
            triangle_wf(*self),
        ensures
            r == triangle_output(*self),
    {
        if !self.enabled || self.length_counter == 0 || self.linear_counter == 0 {
            return 0;
        }
        triangle_wave_table(self.duty_step)
    }

    pub fn write_ctrl(&mut self, data: u8)
        requires
            triangle_wf(*old(self)),
        ensures
            triangle_wf(*final(self)),
            *final(self) == triangle_after_write_ctrl(*old(self), data),
    {
        self.length_counter_halt = (data & 0x80) != 0;
        self.linear_counter_period = data & 0x7F;
    }

    pub fn write_timer_lo(&mut self, data: u8)
        requires
            triangle_wf(*old(self)),
        ensures
            triangle_wf(*final(self)),
            *final(self) == triangle_after_write_timer_lo(*old(self), data),
    {
        self.timer_period = (self.timer_period / 0x100) * 0x100 + (data as u16);
    }

    pub fn write_timer_hi(&mut self, data: u8)
        requires
            triangle_wf(*old(self)),
        ensures
            triangle_wf(*final(self)),
            *final(self) == triangle_after_write_timer_hi(*old(self), data),
    {
        self.timer_period = self.timer_period % 0x100 + ((data % 8) as u16) * 0x100;
        if self.enabled {
            self.length_counter = length_table(data / 8);
        }
        self.linear_counter_reload = true;
    }

    pub fn set_enabled(&mut self, enabled: bool)
        ensures
            *final(self) == triangle_after_set_enabled(*old(self), enabled),
    {
        self.enabled = enabled;
        if !enabled {
            self.length_counter = 0;
        }
    }

    pub fn save_state(&self) -> (r: TriangleState)
        ensures
            triangle_matches_state(*self, r),
    {
        TriangleState {
            enabled: self.enabled,
            timer_period: self.timer_period,
            timer_value: self.timer_value,
            duty_step: self.duty_step,
            length_counter: self.length_counter,
            length_counter_halt: self.length_counter_halt,
            linear_counter: self.linear_counter,
            linear_counter_period: self.linear_counter_period,
            linear_counter_reload: self.linear_counter_reload,
        }
    }

    pub fn load_state(&mut self, state: &TriangleState)
        requires
            state.timer_period <= 0x7FF,
            state.duty_step < 32,
        ensures
            triangle_wf(*final(self)),
            triangle_matches_state(*final(self), *state),
    {
        self.enabled = state.enabled;
        self.timer_period = state.timer_period;
        self.timer_value = state.timer_value;
        self.duty_step = state.duty_step;
        self.length_counter = state.length_counter;
        self.length_counter_halt = state.length_counter_halt;
        self.linear_counter = state.linear_counter;
        self.linear_counter_period = state.linear_counter_period;
        self.linear_counter_reload = state.linear_counter_reload;
    }
}

pub open spec fn triangle_matches_state(t: Triangle, s: TriangleState) -> bool {
    &&& t.enabled == s.enabled
    &&& t.timer_period == s.timer_period
    &&& t.timer_value == s.timer_value
    &&& t.duty_step == s.duty_step
    &&& t.length_counter == s.length_counter
    &&& t.length_counter_halt == s.length_counter_halt
    &&& t.linear_counter == s.linear_counter
    &&& t.linear_counter_period == s.linear_counter_period
    &&& t.linear_counter_reload == s.linear_counter_reload
}

// ---------------------------------------------------------------------------
// Noise
// ---------------------------------------------------------------------------

/// The noise channel: a 15-bit linear-feedback shift register.
#[derive(Clone, Copy)]
pub struct Noise {
    pub enabled: bool,
    pub envelope: Envelope,
    pub timer_period: u16,
    pub timer_value: u16,
    pub length_counter: u8,
    pub length_counter_halt: bool,
    pub mode: bool,
    pub shift_register: u16,
}

/// Snapshot of the noise channel for save states.
pub struct NoiseState {
    pub enabled: bool,
    pub envelope: EnvelopeState,
    pub timer_period: u16,
    pub timer_value: u16,
    pub length_counter: u8,
    pub length_counter_halt: bool,
    pub mode: bool,
    pub shift_register: u16,
}

/// A silent noise channel; the shift register starts at 1.
pub open spec fn noise_init() -> Noise {
    Noise {
        enabled: false,
        envelope: env_zero(),
        timer_period: 0,
        timer_value: 0,
        length_counter: 0,
        length_counter_halt: false,
        mode: false,
        shift_register: 1,
    }
}

/// The feedback bit folded into the register on each shift: bit 0 XOR
/// bit 6 in mode 1, bit 0 XOR bit 1 otherwise.
pub open spec fn noise_feedback(sr: u16, mode: bool) -> u16 {
    (sr & 1) ^ (if mode { (sr >> 6u16) & 1 } else { (sr >> 1u16) & 1 })
}

/// Timer clock (every second CPU cycle): count down, and on underflow shift
/// the register once, inserting the feedback at bit 14.
pub open spec fn noise_timer_clocked(n: Noise) -> Noise {
    if n.timer_value > 0 {
        Noise { timer_value: (n.timer_value - 1) as u16, ..n }
    } else {
        Noise {
            timer_value: n.timer_period,
            shift_register: (n.shift_register >> 1u16) | (noise_feedback(
                n.shift_register,
                n.mode,
            ) << 14u16),
            ..n
        }
    }
}

pub open spec fn noise_length_clocked(n: Noise) -> Noise {
    if !n.length_counter_halt && n.length_counter > 0 {
        Noise { length_counter: (n.length_counter - 1) as u8, ..n }
    } else {
        n
    }
}

pub open spec fn noise_output(n: Noise) -> u8 {
    if !n.enabled || n.length_counter == 0 || n.shift_register & 1 == 1 {
        0u8
    } else {
        env_output(n.envelope)
    }
}

pub open spec fn noise_after_write_ctrl(n: Noise, data: u8) -> Noise {
    Noise {
        length_counter_halt: data & 0x20 != 0,
        envelope: env_after_write(n.envelope, data),
        ..n
    }
}

pub open spec fn noise_after_write_period(n: Noise, data: u8) -> Noise {
    Noise { mode: data & 0x80 != 0, timer_period: noise_period_value(data % 16), ..n }
}

pub open spec fn noise_after_write_length(n: Noise, data: u8) -> Noise {
    Noise {
        length_counter: if n.enabled { length_value(data / 8) } else { n.length_counter },
        envelope: Envelope { start: true, ..n.envelope },
        ..n
    }
}

pub open spec fn noise_after_set_enabled(n: Noise, enabled: bool) -> Noise {
    Noise {
        enabled,
        length_counter: if enabled { n.length_counter } else { 0u8 },
        ..n
    }
}

impl Noise {
    /// A fresh channel; the shift register starts at 1.
    pub fn new() -> (r: Noise)
        ensures
            r == noise_init(),
    {
        Noise {
            enabled: false,
            envelope: Envelope {
                start: false,
                loop_flag: false,
                enabled: false,
                period: 0,
                decay_level: 0,
                divider: 0,
                volume: 0,
            },
            timer_period: 0,
            timer_value: 0,
            length_counter: 0,
            length_counter_halt: false,
            mode: false,
            shift_register: 1,
        }
    }

    pub fn clock_timer(&mut self)
        ensures
            *final(self) == noise_timer_clocked(*old(self)),
    {
        if self.timer_value > 0 {
            self.timer_value -= 1;
        } else {
            self.timer_value = self.timer_period;
            let bit0 = self.shift_register & 1;
            let bit_cmp = if self.mode {
                (self.shift_register >> 6u16) & 1
            } else {
                (self.shift_register >> 1u16) & 1
            };
            let feedback = bit0 ^ bit_cmp;
            proof {
                let sr = self.shift_register;
                assert(((sr & 1) ^ ((sr >> 6u16) & 1)) < 2 && ((sr & 1) ^ ((sr >> 1u16) & 1)) < 2)
                    by (bit_vector);
            }
            self.shift_register = (self.shift_register >> 1u16) | (feedback << 14u16);
        }
    }

    pub fn clock_length_counter(&mut self)
        ensures
            *final(self) == noise_length_clocked(*old(self)),
    {
        if !self.length_counter_halt && self.length_counter > 0 {
            self.length_counter -= 1;
        }
    }

    pub fn clock_envelope(&mut self)
        ensures
            *final(self) == (Noise { envelope: env_clocked(old(self).envelope), ..*old(self) }),
    {
        self.envelope.clock();
    }

    pub fn output(&self) -> (r: u8)
        ensures
            r == noise_output(*self),
    {
        if !self.enabled || self.length_counter == 0 || (self.shift_register & 1) == 1 {
            0
        } else {
            self.envelope.output()
        }
    }

    pub fn write_ctrl(&mut self, data: u8)
        ensures
            *final(self) == noise_after_write_ctrl(*old(self), data),
    {
        self.length_counter_halt = (data & 0x20) != 0;
        self.envelope.write(data);
    }

    pub fn write_period(&mut self, data: u8)
        ensures
            *final(self) == noise_after_write_period(*old(self), data),
    {
        self.mode = (data & 0x80) != 0;
        self.timer_period = noise_period_table(data % 16);
    }

    pub fn write_length(&mut self, data: u8)
        ensures
            *final(self) == noise_after_write_length(*old(self), data),
    {
        if self.enabled {
            self.length_counter = length_table(data / 8);
        }
        self.envelope.start = true;
    }

    pub fn set_enabled(&mut self, enabled: bool)
        ensures
            *final(self) == noise_after_set_enabled(*old(self), enabled),
    {
        self.enabled = enabled;
        if !enabled {
            self.length_counter = 0;
        }
    }

    pub fn save_state(&self) -> (r: NoiseState)
        ensures
            noise_matches_state(*self, r),
    {
        NoiseState {
            enabled: self.enabled,
            envelope: self.envelope.save_state(),
            timer_period: self.timer_period,
            timer_value: self.timer_value,
            length_counter: self.length_counter,
            length_counter_halt: self.length_counter_halt,
            mode: self.mode,
            shift_register: self.shift_register,
        }
    }

    pub fn load_state(&mut self, state: &NoiseState)
        ensures
            noise_matches_state(*final(self), *state),
    {
        self.enabled = state.enabled;
        self.envelope.load_state(&state.envelope);
        self.timer_period = state.timer_period;
        self.timer_value = state.timer_value;
        self.length_counter = state.length_counter;
        self.length_counter_halt = state.length_counter_halt;
        self.mode = state.mode;
        self.shift_register = state.shift_register;
    }
}

pub open spec fn noise_matches_state(n: Noise, s: NoiseState) -> bool {
    &&& n.enabled == s.enabled
    &&& env_matches_state(n.envelope, s.envelope)
    &&& n.timer_period == s.timer_period
    &&& n.timer_value == s.timer_value
    &&& n.length_counter == s.length_counter
    &&& n.length_counter_halt == s.length_counter_halt
    &&& n.mode == s.mode
    &&& n.shift_register == s.shift_register
}


// ---------------------------------------------------------------------------
// The APU
// ---------------------------------------------------------------------------

/// Frame sequencer mode, set by $4017 bit 7.
#[derive(Debug, PartialEq, Eq, Structural, Clone, Copy)]
pub enum FrameCounterMode {
    Step4,
    Step5,
}

/// The raw channel levels at one sample point; the host mixes and filters
/// them into PCM.
#[derive(Debug, PartialEq, Eq, Structural, Clone, Copy)]
pub struct ApuSample {
    pub pulse1: u8,
    pub pulse2: u8,
    pub triangle: u8,
    pub noise: u8,
}

/// The scalar machine state of the APU: everything except the sample ring.
/// The transition functions below are stated over this record.
#[derive(Clone, Copy)]
pub struct ApuCore {
    pub pulse1: Pulse,
    pub pulse2: Pulse,
    pub triangle: Triangle,
    pub noise: Noise,
    pub dmc_enabled: bool,
    pub sample_acc: u32,
    pub cpu_cycle_counter: u64,
    pub frame_counter_cycle: u32,
    pub frame_counter_mode: FrameCounterMode,
    pub interrupt_inhibit: bool,
    pub frame_interrupt: bool,
}

/// The audio processor.
pub struct Apu {
    pub pulse1: Pulse,
    pub pulse2: Pulse,
    pub triangle: Triangle,
    pub noise: Noise,
    pub dmc_enabled: bool,
    pub sample_acc: u32,
    pub cpu_cycle_counter: u64,
    pub sample_buffer: Vec<ApuSample>,
    pub frame_counter_cycle: u32,
    pub frame_counter_mode: FrameCounterMode,
    pub interrupt_inhibit: bool,
    pub frame_interrupt: bool,
}

/// Snapshot of the APU for save states; the sample ring is drained, not
/// saved.
pub struct ApuState {
    pub pulse1: PulseState,
    pub pulse2: PulseState,
    pub triangle: TriangleState,
    pub noise: NoiseState,
    pub dmc_enabled: bool,
    pub sample_accumulator: u32,
    pub cpu_cycle_counter: u64,
    pub frame_counter_cycle: u32,
    pub frame_counter_mode: u8,
    pub interrupt_inhibit: bool,
    pub frame_interrupt: bool,
}

/// The scalar state of an APU value.
pub open spec fn apu_core(a: Apu) -> ApuCore {
    ApuCore {
        pulse1: a.pulse1,
        pulse2: a.pulse2,
        triangle: a.triangle,
        noise: a.noise,
        dmc_enabled: a.dmc_enabled,
        sample_acc: a.sample_acc,
        cpu_cycle_counter: a.cpu_cycle_counter,
        frame_counter_cycle: a.frame_counter_cycle,
        frame_counter_mode: a.frame_counter_mode,
        interrupt_inhibit: a.interrupt_inhibit,
        frame_interrupt: a.frame_interrupt,
    }
}

pub open spec fn apu_core_wf(c: ApuCore) -> bool {
    &&& pulse_wf(c.pulse1)
    &&& pulse_wf(c.pulse2)
    &&& triangle_wf(c.triangle)
    &&& c.frame_counter_cycle < 37282
    &&& c.sample_acc < SAMPLE_ACC_PERIOD
}

pub open spec fn apu_wf(a: Apu) -> bool {
    apu_core_wf(apu_core(a))
}

/// A freshly powered-on APU.
pub open spec fn apu_core_init() -> ApuCore {
    ApuCore {
        pulse1: pulse_init(),
        pulse2: pulse_init(),
        triangle: triangle_init(),
        noise: noise_init(),
        dmc_enabled: false,
        sample_acc: 0,
        cpu_cycle_counter: 0,
        frame_counter_cycle: 0,
        frame_counter_mode: FrameCounterMode::Step4,
        interrupt_inhibit: false,
        frame_interrupt: false,
    }
}

/// Quarter-frame event: every envelope, and the triangle linear counter.
#[verifier::opaque]
pub open spec fn apu_quarter_frame(c: ApuCore) -> ApuCore {
    ApuCore {
        pulse1: Pulse { envelope: env_clocked(c.pulse1.envelope), ..c.pulse1 },
        pulse2: Pulse { envelope: env_clocked(c.pulse2.envelope), ..c.pulse2 },
        noise: Noise { envelope: env_clocked(c.noise.envelope), ..c.noise },
        triangle: triangle_linear_clocked(c.triangle),
        ..c
    }
}

/// Half-frame event: every length counter, then both sweeps (pulse 1 with
/// the one's-complement negate variant).
#[verifier::opaque]
pub open spec fn apu_half_frame(c: ApuCore) -> ApuCore {
    ApuCore {
        pulse1: pulse_sweep_clocked(pulse_length_clocked(c.pulse1), 1),
        pulse2: pulse_sweep_clocked(pulse_length_clocked(c.pulse2), 2),
        triangle: triangle_length_clocked(c.triangle),
        noise: noise_length_clocked(c.noise),
        ..c
    }
}

/// The frame sequencer's action at the current counter value. In 4-step
/// mode the last step also raises the frame interrupt unless inhibited;
/// 5-step mode never interrupts.
#[verifier::opaque]
pub open spec fn apu_frame_step(c: ApuCore) -> ApuCore {
    if c.frame_counter_mode == FrameCounterMode::Step4 {
        if c.frame_counter_cycle == 7457 {
            apu_quarter_frame(c)
        } else if c.frame_counter_cycle == 14913 {
            apu_half_frame(apu_quarter_frame(c))
        } else if c.frame_counter_cycle == 22371 {
            apu_quarter_frame(c)
        } else if c.frame_counter_cycle == 29781 {
            let b = apu_half_frame(apu_quarter_frame(c));
            if !b.interrupt_inhibit {
                ApuCore { frame_interrupt: true, ..b }
            } else {
                b
            }
        } else {
            c
        }
    } else {
        if c.frame_counter_cycle == 7457 {
            apu_quarter_frame(c)
        } else if c.frame_counter_cycle == 14913 {
            apu_half_frame(apu_quarter_frame(c))
        } else if c.frame_counter_cycle == 22371 {
            apu_quarter_frame(c)
        } else if c.frame_counter_cycle == 37281 {
            apu_half_frame(apu_quarter_frame(c))
        } else {
            c
        }
    }
}

/// The counter wraps after the last step of the active sequence.
pub open spec fn apu_frame_reset_at(mode: FrameCounterMode) -> u32 {
    if mode == FrameCounterMode::Step4 { 29782u32 } else { 37282u32 }
}

pub open spec fn apu_advance_frame_cycle(c: ApuCore) -> ApuCore {
    if c.frame_counter_cycle + 1 >= apu_frame_reset_at(c.frame_counter_mode) {
        ApuCore { frame_counter_cycle: 0, ..c }
    } else {
        ApuCore { frame_counter_cycle: (c.frame_counter_cycle + 1) as u32, ..c }
    }
}

/// Pulse and noise timers run at half the CPU clock; the triangle timer at
/// the full clock.
pub open spec fn apu_clock_timers(c: ApuCore) -> ApuCore {
    let c1 = if c.cpu_cycle_counter % 2 == 0 {
        ApuCore {
            pulse1: pulse_timer_clocked(c.pulse1),
            pulse2: pulse_timer_clocked(c.pulse2),
            noise: noise_timer_clocked(c.noise),
            ..c
        }
    } else {
        c
    };
    ApuCore { triangle: triangle_timer_clocked(c1.triangle), ..c1 }
}

pub open spec fn apu_bump_counter(c: ApuCore) -> ApuCore {
    if c.cpu_cycle_counter == u64::MAX {
        ApuCore { cpu_cycle_counter: 0, ..c }
    } else {
        ApuCore { cpu_cycle_counter: (c.cpu_cycle_counter + 1) as u64, ..c }
    }
}

/// Everything one CPU cycle does to the APU except emitting a sample.
pub open spec fn apu_cycle_pre_sample(c: ApuCore) -> ApuCore {
    apu_advance_frame_cycle(apu_frame_step(apu_clock_timers(apu_bump_counter(c))))
}

pub open spec fn apu_sample_of(c: ApuCore) -> ApuSample {
    ApuSample {
        pulse1: pulse_output(c.pulse1),
        pulse2: pulse_output(c.pulse2),
        triangle: triangle_output(c.triangle),
        noise: noise_output(c.noise),
    }
}

/// One CPU cycle of the APU's scalar state; the emitted samples are
/// described by `apu_cycle_emits`.
pub open spec fn apu_cycle(c: ApuCore) -> ApuCore {
    let b = apu_cycle_pre_sample(c);
    if b.sample_acc + SAMPLE_ACC_STEP >= SAMPLE_ACC_PERIOD {
        ApuCore { sample_acc: (b.sample_acc + SAMPLE_ACC_STEP - SAMPLE_ACC_PERIOD) as u32, ..b }
    } else {
        ApuCore { sample_acc: (b.sample_acc + SAMPLE_ACC_STEP) as u32, ..b }
    }
}

/// The samples one CPU cycle appends to the ring: one each time the
/// accumulator crosses the sample period.
pub open spec fn apu_cycle_emits(c: ApuCore) -> Seq<ApuSample> {
    let b = apu_cycle_pre_sample(c);
    if b.sample_acc + SAMPLE_ACC_STEP >= SAMPLE_ACC_PERIOD {
        seq![apu_sample_of(b)]
    } else {
        Seq::empty()
    }
}

/// `n` CPU cycles of the APU.
pub open spec fn apu_cycles(c: ApuCore, n: nat) -> ApuCore
    decreases n,
{
    if n == 0 {
        c
    } else {
        apu_cycle(apu_cycles(c, (n - 1) as nat))
    }
}

/// The samples `n` CPU cycles append.
pub open spec fn apu_emitted(c: ApuCore, n: nat) -> Seq<ApuSample>
    decreases n,
{
    if n == 0 {
        Seq::empty()
    } else {
        apu_emitted(c, (n - 1) as nat) + apu_cycle_emits(apu_cycles(c, (n - 1) as nat))
    }
}

/// The $4015 status byte: length-counter liveness per channel, the DMC
/// enable, and the frame-interrupt flag.
pub open spec fn apu_status_byte(c: ApuCore) -> u8 {
    ((if c.pulse1.length_counter > 0 { 0x01int } else { 0int })
        + (if c.pulse2.length_counter > 0 { 0x02int } else { 0int })
        + (if c.triangle.length_counter > 0 { 0x04int } else { 0int })
        + (if c.noise.length_counter > 0 { 0x08int } else { 0int })
        + (if c.dmc_enabled { 0x10int } else { 0int })
        + (if c.frame_interrupt { 0x40int } else { 0int })) as u8
}

/// $4015 write: enables per channel (clearing one zeroes that length
/// counter), and the DMC enable bit.
pub open spec fn apu_after_write_4015(c: ApuCore, data: u8) -> ApuCore {
    ApuCore {
        pulse1: pulse_after_set_enabled(c.pulse1, data & 0x01 != 0),
        pulse2: pulse_after_set_enabled(c.pulse2, data & 0x02 != 0),
        triangle: triangle_after_set_enabled(c.triangle, data & 0x04 != 0),
        noise: noise_after_set_enabled(c.noise, data & 0x08 != 0),
        dmc_enabled: data & 0x10 != 0,
        ..c
    }
}

/// $4017 write: set the sequencer mode, restart the sequence, handle the
/// inhibit bit, and in 5-step mode clock a quarter and a half frame at
/// once.
pub open spec fn apu_after_write_4017(c: ApuCore, data: u8) -> ApuCore {
    let mode = if data & 0x80 != 0 { FrameCounterMode::Step5 } else { FrameCounterMode::Step4 };
    let inhibit = data & 0x40 != 0;
    let c1 = ApuCore {
        frame_counter_mode: mode,
        interrupt_inhibit: inhibit,
        frame_interrupt: if inhibit { false } else { c.frame_interrupt },
        frame_counter_cycle: 0,
        ..c
    };
    if mode == FrameCounterMode::Step5 {
        apu_half_frame(apu_quarter_frame(c1))
    } else {
        c1
    }
}

/// The full effect of a CPU write to an APU register.
pub open spec fn apu_after_write(c: ApuCore, addr: u16, data: u8) -> ApuCore {
    if addr == 0x4000 { ApuCore { pulse1: pulse_after_write_ctrl(c.pulse1, data), ..c } }
    else if addr == 0x4001 { ApuCore { pulse1: (Pulse { sweep: sweep_after_write(c.pulse1.sweep, data), ..c.pulse1 }), ..c } }
    else if addr == 0x4002 { ApuCore { pulse1: pulse_after_write_timer_lo(c.pulse1, data), ..c } }
    else if addr == 0x4003 { ApuCore { pulse1: pulse_after_write_timer_hi(c.pulse1, data), ..c } }
    else if addr == 0x4004 { ApuCore { pulse2: pulse_after_write_ctrl(c.pulse2, data), ..c } }
    else if addr == 0x4005 { ApuCore { pulse2: (Pulse { sweep: sweep_after_write(c.pulse2.sweep, data), ..c.pulse2 }), ..c } }
    else if addr == 0x4006 { ApuCore { pulse2: pulse_after_write_timer_lo(c.pulse2, data), ..c } }
    else if addr == 0x4007 { ApuCore { pulse2: pulse_after_write_timer_hi(c.pulse2, data), ..c } }
    else if addr == 0x4008 { ApuCore { triangle: triangle_after_write_ctrl(c.triangle, data), ..c } }
    else if addr == 0x400A { ApuCore { triangle: triangle_after_write_timer_lo(c.triangle, data), ..c } }
    else if addr == 0x400B { ApuCore { triangle: triangle_after_write_timer_hi(c.triangle, data), ..c } }
    else if addr == 0x400C { ApuCore { noise: noise_after_write_ctrl(c.noise, data), ..c } }
    else if addr == 0x400E { ApuCore { noise: noise_after_write_period(c.noise, data), ..c } }
    else if addr == 0x400F { ApuCore { noise: noise_after_write_length(c.noise, data), ..c } }
    else if addr == 0x4015 { apu_after_write_4015(c, data) }
    else if addr == 0x4017 { apu_after_write_4017(c, data) }
    else { c }
}

pub open spec fn apu_matches_state(c: ApuCore, s: ApuState) -> bool {
    &&& pulse_matches_state(c.pulse1, s.pulse1)
    &&& pulse_matches_state(c.pulse2, s.pulse2)
    &&& triangle_matches_state(c.triangle, s.triangle)
    &&& noise_matches_state(c.noise, s.noise)
    &&& c.dmc_enabled == s.dmc_enabled
    &&& c.sample_acc == s.sample_accumulator
    &&& c.cpu_cycle_counter == s.cpu_cycle_counter
    &&& c.frame_counter_cycle == s.frame_counter_cycle
    &&& (c.frame_counter_mode == FrameCounterMode::Step4 <==> s.frame_counter_mode == 0)
    &&& c.interrupt_inhibit == s.interrupt_inhibit
    &&& c.frame_interrupt == s.frame_interrupt
}

/// The ranges a stored APU snapshot must respect to be loadable.
pub open spec fn apu_state_wf(s: ApuState) -> bool {
    &&& s.pulse1.timer_period <= 0x7FF
    &&& s.pulse1.duty_step < 8
    &&& s.pulse1.sweep.shift <= 7
    &&& s.pulse2.timer_period <= 0x7FF
    &&& s.pulse2.duty_step < 8
    &&& s.pulse2.sweep.shift <= 7
    &&& s.triangle.timer_period <= 0x7FF
    &&& s.triangle.duty_step < 32
    &&& s.frame_counter_cycle < 37282
    &&& s.sample_accumulator < SAMPLE_ACC_PERIOD
}

impl Apu {
    pub fn new() -> (r: Apu)
        ensures
            apu_wf(r),
            apu_core(r) == apu_core_init(),
            r.sample_buffer@ == Seq::<ApuSample>::empty(),
    {
        Apu {
            pulse1: Pulse::new(),
            pulse2: Pulse::new(),
            triangle: Triangle::new(),
            noise: Noise::new(),
            dmc_enabled: false,
            sample_acc: 0,
            cpu_cycle_counter: 0,
            sample_buffer: Vec::new(),
            frame_counter_cycle: 0,
            frame_counter_mode: FrameCounterMode::Step4,
            interrupt_inhibit: false,
            frame_interrupt: false,
        }
    }

    /// Drain the sample ring for the host.
    pub fn take_samples(&mut self) -> (r: Vec<ApuSample>)
        ensures
            r@ == old(self).sample_buffer@,
            apu_core(*final(self)) == apu_core(*old(self)),
            final(self).sample_buffer@ == Seq::<ApuSample>::empty(),
    {
        let mut drained: Vec<ApuSample> = Vec::new();
        core::mem::swap(&mut drained, &mut self.sample_buffer);
        drained
    }

    /// Hand over the frame-interrupt flag, clearing it.
    pub fn poll_frame_interrupt(&mut self) -> (r: bool)
        ensures
            r == old(self).frame_interrupt,
            apu_core(*final(self)) == (ApuCore { frame_interrupt: false, ..apu_core(*old(self)) }),
            final(self).sample_buffer@ == old(self).sample_buffer@,
    {
        let occurred = self.frame_interrupt;
        self.frame_interrupt = false;
        occurred
    }

    fn clock_quarter_frame(&mut self)
        requires
            apu_wf(*old(self)),
        ensures
            apu_wf(*final(self)),
            apu_core(*final(self)) == apu_quarter_frame(apu_core(*old(self))),
            final(self).sample_buffer@ == old(self).sample_buffer@,
    {
        proof {
            reveal(apu_quarter_frame);
        }
        self.pulse1.clock_envelope();
        self.pulse2.clock_envelope();
        self.noise.clock_envelope();
        self.triangle.clock_linear_counter();
    }

    fn clock_half_frame(&mut self)
        requires
            apu_wf(*old(self)),
        ensures
            apu_wf(*final(self)),
            apu_core(*final(self)) == apu_half_frame(apu_core(*old(self))),
            final(self).sample_buffer@ == old(self).sample_buffer@,
    {
        proof {
            reveal(apu_half_frame);
        }
        self.pulse1.clock_length_counter();
        self.pulse2.clock_length_counter();
        self.triangle.clock_length_counter();
        self.noise.clock_length_counter();
        self.pulse1.clock_sweep(1);
        self.pulse2.clock_sweep(2);
    }

    fn clock_frame_counter_step(&mut self)
        requires
            apu_wf(*old(self)),
        ensures
            apu_wf(*final(self)),
            apu_core(*final(self)) == apu_frame_step(apu_core(*old(self))),
            final(self).sample_buffer@ == old(self).sample_buffer@,
    {
        proof {
            reveal(apu_frame_step);
        }
        let c = self.frame_counter_cycle;
        match self.frame_counter_mode {
            FrameCounterMode::Step4 => {
                if c == 7457 {
                    self.clock_quarter_frame();
                } else if c == 14913 {
                    self.clock_quarter_frame();
                    self.clock_half_frame();
                } else if c == 22371 {
                    self.clock_quarter_frame();
                } else if c == 29781 {
                    self.clock_quarter_frame();
                    self.clock_half_frame();
                    if !self.interrupt_inhibit {
                        self.frame_interrupt = true;
                    }
                }
            }
            FrameCounterMode::Step5 => {
                if c == 7457 {
                    self.clock_quarter_frame();
                } else if c == 14913 {
                    self.clock_quarter_frame();
                    self.clock_half_frame();
                } else if c == 22371 {
                    self.clock_quarter_frame();
                } else if c == 37281 {
                    self.clock_quarter_frame();
                    self.clock_half_frame();
                }
            }
        }
    }

    /// One CPU cycle: clock the timers and the frame sequencer, then let
    /// the sampler decide whether this cycle yields a sample.
    #[verifier::rlimit(100)]
    #[verifier::spinoff_prover]
    fn tick_cycle(&mut self)
        requires
            apu_wf(*old(self)),
        ensures
            apu_wf(*final(self)),
            apu_core(*final(self)) == apu_cycle(apu_core(*old(self))),
            final(self).sample_buffer@ == old(self).sample_buffer@ + apu_cycle_emits(
                apu_core(*old(self)),
            ),
    {
        let ghost c0 = apu_core(*old(self));
        if self.cpu_cycle_counter == u64::MAX {
            self.cpu_cycle_counter = 0;
        } else {
            self.cpu_cycle_counter = self.cpu_cycle_counter + 1;
        }
        proof {
            assert(apu_core(*self) == apu_bump_counter(c0));
        }
        let ghost c1 = apu_bump_counter(c0);

        if self.cpu_cycle_counter % 2 == 0 {
            self.pulse1.clock_timer();
            self.pulse2.clock_timer();
            self.noise.clock_timer();
        }
        self.triangle.clock_timer();
        proof {
            assert(apu_core(*self) == apu_clock_timers(c1));
        }
        let ghost c2 = apu_clock_timers(c1);

        self.clock_frame_counter_step();
        let ghost c3 = apu_frame_step(c2);

        let reset_cycle: u32 = if self.frame_counter_mode == FrameCounterMode::Step5 {
            37282
        } else {
            29782
        };
        if self.frame_counter_cycle + 1 >= reset_cycle {
            self.frame_counter_cycle = 0;
        } else {
            self.frame_counter_cycle = self.frame_counter_cycle + 1;
        }
        proof {
            assert(apu_core(*self) == apu_advance_frame_cycle(c3));
            assert(apu_core(*self) == apu_cycle_pre_sample(c0));
        }
        let ghost b = apu_cycle_pre_sample(c0);

        let acc = self.sample_acc + SAMPLE_ACC_STEP;
        if acc >= SAMPLE_ACC_PERIOD {
            self.sample_acc = acc - SAMPLE_ACC_PERIOD;
            let s = ApuSample {
                pulse1: self.pulse1.output(),
                pulse2: self.pulse2.output(),
                triangle: self.triangle.output(),
                noise: self.noise.output(),
            };
            proof {
                assert(s == apu_sample_of(b));
            }
            self.sample_buffer.push(s);
            proof {
                assert(self.sample_buffer@ =~= old(self).sample_buffer@ + apu_cycle_emits(c0));
            }
        } else {
            self.sample_acc = acc;
            proof {
                assert(self.sample_buffer@ =~= old(self).sample_buffer@ + apu_cycle_emits(c0));
            }
        }
    }

    /// Advance by `cpu_cycles` CPU cycles.
    pub fn tick(&mut self, cpu_cycles: usize)
        requires
            apu_wf(*old(self)),
        ensures
            apu_wf(*final(self)),
            apu_core(*final(self)) == apu_cycles(apu_core(*old(self)), cpu_cycles as nat),
            final(self).sample_buffer@ == old(self).sample_buffer@ + apu_emitted(
                apu_core(*old(self)),
                cpu_cycles as nat,
            ),
    {
        let ghost start = apu_core(*old(self));
        let ghost buf0 = old(self).sample_buffer@;
        let mut i: usize = 0;
        while i < cpu_cycles
            invariant
                apu_wf(*self),
                i <= cpu_cycles,
                apu_core(*self) == apu_cycles(start, i as nat),
                self.sample_buffer@ == buf0 + apu_emitted(start, i as nat),
            decreases cpu_cycles - i,
        {
            self.tick_cycle();
            proof {
                assert(apu_cycles(start, (i + 1) as nat) == apu_cycle(apu_cycles(start, i as nat)));
                assert(apu_emitted(start, (i + 1) as nat) == apu_emitted(start, i as nat)
                    + apu_cycle_emits(apu_cycles(start, i as nat)));
                assert(self.sample_buffer@ =~= buf0 + apu_emitted(start, (i + 1) as nat));
            }
            i += 1;
        }
    }

    /// CPU read of an APU register: only $4015 responds; reading it clears
    /// the frame-interrupt flag.
    pub fn mem_read(&mut self, addr: u16) -> (r: u8)
        ensures
            r == if addr == 0x4015 { apu_status_byte(apu_core(*old(self))) } else { 0u8 },
            apu_core(*final(self)) == if addr == 0x4015 {
                (ApuCore { frame_interrupt: false, ..apu_core(*old(self)) })
            } else {
                apu_core(*old(self))
            },
            final(self).sample_buffer@ == old(self).sample_buffer@,
    {
        if addr == 0x4015 {
            let mut status: u8 = 0;
            if self.pulse1.length_counter > 0 {
                status = status + 0x01;
            }
            if self.pulse2.length_counter > 0 {
                status = status + 0x02;
            }
            if self.triangle.length_counter > 0 {
                status = status + 0x04;
            }
            if self.noise.length_counter > 0 {
                status = status + 0x08;
            }
            if self.dmc_enabled {
                status = status + 0x10;
            }
            if self.frame_interrupt {
                status = status + 0x40;
            }
            self.frame_interrupt = false;
            status
        } else {
            0
        }
    }

    /// CPU write to an APU register.
    #[verifier::rlimit(100)]
    #[verifier::spinoff_prover]
    pub fn mem_write(&mut self, addr: u16, data: u8)
        requires
            apu_wf(*old(self)),
        ensures
            apu_wf(*final(self)),
            apu_core(*final(self)) == apu_after_write(apu_core(*old(self)), addr, data),
            final(self).sample_buffer@ == old(self).sample_buffer@,
    {
        if addr == 0x4000 {
            self.pulse1.write_ctrl(data);
        } else if addr == 0x4001 {
            self.pulse1.write_sweep(data);
        } else if addr == 0x4002 {
            self.pulse1.write_timer_lo(data);
        } else if addr == 0x4003 {
            self.pulse1.write_timer_hi(data);
        } else if addr == 0x4004 {
            self.pulse2.write_ctrl(data);
        } else if addr == 0x4005 {
            self.pulse2.write_sweep(data);
        } else if addr == 0x4006 {
            self.pulse2.write_timer_lo(data);
        } else if addr == 0x4007 {
            self.pulse2.write_timer_hi(data);
        } else if addr == 0x4008 {
            self.triangle.write_ctrl(data);
        } else if addr == 0x400A {
            self.triangle.write_timer_lo(data);
        } else if addr == 0x400B {
            self.triangle.write_timer_hi(data);
        } else if addr == 0x400C {
            self.noise.write_ctrl(data);
        } else if addr == 0x400E {
            self.noise.write_period(data);
        } else if addr == 0x400F {
            self.noise.write_length(data);
        } else if addr == 0x4015 {
            self.pulse1.set_enabled((data & 0x01) != 0);
            self.pulse2.set_enabled((data & 0x02) != 0);
            self.triangle.set_enabled((data & 0x04) != 0);
            self.noise.set_enabled((data & 0x08) != 0);
            self.dmc_enabled = (data & 0x10) != 0;
        } else if addr == 0x4017 {
            self.frame_counter_mode = if (data & 0x80) != 0 {
                FrameCounterMode::Step5
            } else {
                FrameCounterMode::Step4
            };
            self.interrupt_inhibit = (data & 0x40) != 0;
            if self.interrupt_inhibit {
                self.frame_interrupt = false;
            }
            self.frame_counter_cycle = 0;
            if self.frame_counter_mode == FrameCounterMode::Step5 {
                self.clock_quarter_frame();
                self.clock_half_frame();
            }
        }
    }

    pub fn save_state(&self) -> (r: ApuState)
        ensures
            apu_matches_state(apu_core(*self), r),
    {
        ApuState {
            pulse1: self.pulse1.save_state(),
            pulse2: self.pulse2.save_state(),
            triangle: self.triangle.save_state(),
            noise: self.noise.save_state(),
            dmc_enabled: self.dmc_enabled,
            sample_accumulator: self.sample_acc,
            cpu_cycle_counter: self.cpu_cycle_counter,
            frame_counter_cycle: self.frame_counter_cycle,
            frame_counter_mode: if matches!(self.frame_counter_mode, FrameCounterMode::Step4) {
                0
            } else {
                1
            },
            interrupt_inhibit: self.interrupt_inhibit,
            frame_interrupt: self.frame_interrupt,
        }
    }

    /// Restore a snapshot; the sample ring is cleared. The stored ranges
    /// must be ones the machine can actually reach.
    pub fn load_state(&mut self, state: &ApuState)
        requires
            apu_state_wf(*state),
        ensures
            apu_wf(*final(self)),
            apu_matches_state(apu_core(*final(self)), *state),
            final(self).sample_buffer@ == Seq::<ApuSample>::empty(),
    {
        self.pulse1.load_state(&state.pulse1);
        self.pulse2.load_state(&state.pulse2);
        self.triangle.load_state(&state.triangle);
        self.noise.load_state(&state.noise);
        self.dmc_enabled = state.dmc_enabled;
        self.sample_acc = state.sample_accumulator;
        self.cpu_cycle_counter = state.cpu_cycle_counter;
        self.frame_counter_cycle = state.frame_counter_cycle;
        self.frame_counter_mode = if state.frame_counter_mode == 0 {
            FrameCounterMode::Step4
        } else {
            FrameCounterMode::Step5
        };
        self.interrupt_inhibit = state.interrupt_inhibit;
        self.frame_interrupt = state.frame_interrupt;
        self.sample_buffer = Vec::new();
    }
}

} // verus!
