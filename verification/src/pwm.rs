//! PWM duty generation for the three motor phases.
//!
//! The driver translates a logical request — a duty percentage and a per-phase
//! enable pattern — into per-channel duty values under two multiplicative
//! safety clamps: a configuration-time ceiling (`duty_limit`, a fraction of the
//! hardware's maximum duty register value) and a per-call clamp of the request
//! to at most 100 %. Disabled phases are forced to 0 duty but the channel
//! stays armed, preserving fast switch-back latency for the next commutation
//! step.
//!
//! The hardware's maximum duty register value comes in at construction; the
//! peripheral layer reads the computed per-channel duties and dead time back
//! out and programs the timer with them.

use vstd::prelude::*;

verus! {

/// Static PWM configuration, fixed at initialization. It defines the hard
/// safety ceiling for the lifetime of the controller.
pub struct MotorPwmConfig {
    /// PWM switching frequency in Hz.
    pub pwm_freq: u32,
    /// Dead time between complementary switches, in nanoseconds.
    pub dead_time_ns: u32,
    /// Ceiling on the effective duty, in percent (0-100).
    pub max_duty_percent: u8,
}

impl Default for MotorPwmConfig {
    /// 20 kHz switching, 2 µs dead time, and a 15 % duty ceiling for very
    /// safe initial testing.
    fn default() -> (r: Self)
        ensures
            r.pwm_freq == 20_000,
            r.dead_time_ns == 2_000,
            r.max_duty_percent == 15,
    {
        Self { pwm_freq: 20_000, dead_time_ns: 2_000, max_duty_percent: 15 }
    }
}

/// One of the three PWM channels, one per motor phase.
#[derive(Clone, Copy, Debug, PartialEq, Eq, Structural)]
pub enum PwmChannel {
    /// Phase A.
    Ch1,
    /// Phase B.
    Ch2,
    /// Phase C.
    Ch3,
}

/// Motor PWM driver.
///
/// `duty_a`, `duty_b` and `duty_c` are the duty values currently applied to
/// the three channels, in timer ticks out of `max_duty`. Well-formedness
/// ([`MotorPwm::wf`]) keeps every channel at or below `duty_limit`.
pub struct MotorPwm {
    /// The hardware's maximum duty register value (100 % duty).
    pub max_duty: u16,
    /// Ceiling on any channel duty, in ticks: `max_duty * max_duty_percent / 100`.
    pub duty_limit: u16,
    /// Dead time in timer ticks, derived once from `max_duty`.
    pub dead_time_ticks: u16,
    /// Duty currently applied to channel 1 (phase A), in ticks.
    pub duty_a: u16,
    /// Duty currently applied to channel 2 (phase B), in ticks.
    pub duty_b: u16,
    /// Duty currently applied to channel 3 (phase C), in ticks.
    pub duty_c: u16,
}

impl MotorPwm {
    /// Every channel duty respects the configured ceiling.
    pub open spec fn wf(self) -> bool {
        &&& self.duty_a <= self.duty_limit
        &&& self.duty_b <= self.duty_limit
        &&& self.duty_c <= self.duty_limit
    }

    /// The duty value a request of `duty_percent` puts on an enabled channel:
    /// the request is clamped to 100 %, scaled to ticks, and capped at
    /// `duty_limit`.
    pub open spec fn clamped_duty(self, duty_percent: u8) -> u16 {
        let percent = if duty_percent > 100 { 100int } else { duty_percent as int };
        let scaled = self.max_duty as int * percent / 100;
        if scaled < self.duty_limit as int { scaled as u16 } else { self.duty_limit }
    }

    /// The duty applied to the given channel.
    pub open spec fn spec_channel_duty(self, channel: PwmChannel) -> u16 {
        match channel {
            PwmChannel::Ch1 => self.duty_a,
            PwmChannel::Ch2 => self.duty_b,
            PwmChannel::Ch3 => self.duty_c,
        }
    }

    /// The driver after a commutation pattern is applied: enabled channels
    /// carry the clamped duty, disabled channels are forced to 0.
    pub open spec fn spec_apply(self, duty_percent: u8, ph_a_en: bool, ph_b_en: bool, ph_c_en: bool) -> Self {
        Self {
            duty_a: if ph_a_en { self.clamped_duty(duty_percent) } else { 0 },
            duty_b: if ph_b_en { self.clamped_duty(duty_percent) } else { 0 },
            duty_c: if ph_c_en { self.clamped_duty(duty_percent) } else { 0 },
            ..self
        }
    }

    /// The driver after an emergency stop: all channels at 0 duty.
    pub open spec fn spec_emergency_stop(self) -> Self {
        Self { duty_a: 0, duty_b: 0, duty_c: 0, ..self }
    }

    /// All three channels carry 0 duty.
    pub open spec fn all_channels_zero(self) -> bool {
        self.duty_a == 0 && self.duty_b == 0 && self.duty_c == 0
    }

    /// Build the driver state for a hardware timer whose maximum duty
    /// register value is `max_duty`.
    ///
    /// The duty ceiling is computed once here from `config.max_duty_percent`;
    /// the dead time is derived as a fixed fraction of `max_duty` — a
    /// conservative approximation of 2 µs at 20 kHz on a 170 MHz timer clock,
    /// not an exact time-domain computation. All channels start at 0 duty.
    pub fn new(config: &MotorPwmConfig, max_duty: u16) -> (r: Self)
        requires
            config.max_duty_percent <= 100,
        ensures
            r.max_duty == max_duty,
            r.duty_limit == max_duty as int * config.max_duty_percent as int / 100,
            r.duty_limit <= max_duty,
            r.dead_time_ticks == max_duty as int / 512,
            r.all_channels_zero(),
            r.wf(),
    {
        let dead_time_ticks: u16 = max_duty / 512;

        proof {
            assert(max_duty as int * config.max_duty_percent as int <= 65535 * 100
                && max_duty as int * config.max_duty_percent as int <= max_duty as int * 100)
                by (nonlinear_arith)
                requires
                    max_duty <= 65535,
                    config.max_duty_percent <= 100,
            ;
        }
        let duty_limit: u16 = ((max_duty as u32) * (config.max_duty_percent as u32) / 100) as u16;

        Self { max_duty, duty_limit, dead_time_ticks, duty_a: 0, duty_b: 0, duty_c: 0 }
    }

    /// Set the duty cycle for one channel from a percentage request.
    ///
    /// The request is clamped to 100 % and the resulting tick value is capped
    /// at the configured `duty_limit`.
    pub fn set_phase_duty(&mut self, channel: PwmChannel, duty_percent: u8)
        ensures
            final(self).spec_channel_duty(channel) == old(self).clamped_duty(duty_percent),
            forall|c: PwmChannel| c != channel
                ==> final(self).spec_channel_duty(c) == old(self).spec_channel_duty(c),
            final(self).max_duty == old(self).max_duty,
            final(self).duty_limit == old(self).duty_limit,
            final(self).dead_time_ticks == old(self).dead_time_ticks,
            final(self).spec_channel_duty(channel) <= old(self).duty_limit,
    {
        let percent: u8 = if duty_percent > 100 { 100 } else { duty_percent };
        proof {
            assert(self.max_duty as int * percent as int <= 65535 * 100) by (nonlinear_arith)
                requires
                    self.max_duty <= 65535,
                    percent <= 100,
            ;
        }
        let scaled: u32 = (self.max_duty as u32) * (percent as u32) / 100;
        let duty: u16 = if scaled < self.duty_limit as u32 {
            scaled as u16
        } else {
            self.duty_limit
        };
        match channel {
            PwmChannel::Ch1 => self.duty_a = duty,
            PwmChannel::Ch2 => self.duty_b = duty,
            PwmChannel::Ch3 => self.duty_c = duty,
        }
    }

    /// Force one channel to 0 % duty while leaving it armed, so the next
    /// commutation step can switch it back without re-enabling.
    pub fn disable_phase(&mut self, channel: PwmChannel)
        ensures
            final(self).spec_channel_duty(channel) == 0,
            forall|c: PwmChannel| c != channel
                ==> final(self).spec_channel_duty(c) == old(self).spec_channel_duty(c),
            final(self).max_duty == old(self).max_duty,
            final(self).duty_limit == old(self).duty_limit,
            final(self).dead_time_ticks == old(self).dead_time_ticks,
    {
        match channel {
            PwmChannel::Ch1 => self.duty_a = 0,
            PwmChannel::Ch2 => self.duty_b = 0,
            PwmChannel::Ch3 => self.duty_c = 0,
        }
    }

    /// Apply a six-step commutation pattern: enabled phases get the clamped
    /// duty, disabled phases are forced to 0.
    pub fn apply_commutation(&mut self, duty_percent: u8, ph_a_en: bool, ph_b_en: bool, ph_c_en: bool)
        ensures
            *final(self) == old(self).spec_apply(duty_percent, ph_a_en, ph_b_en, ph_c_en),
            final(self).wf(),
    {
        if ph_a_en {
            self.set_phase_duty(PwmChannel::Ch1, duty_percent);
        } else {
            self.disable_phase(PwmChannel::Ch1);
        }

        if ph_b_en {
            self.set_phase_duty(PwmChannel::Ch2, duty_percent);
        } else {
            self.disable_phase(PwmChannel::Ch2);
        }

        if ph_c_en {
            self.set_phase_duty(PwmChannel::Ch3, duty_percent);
        } else {
            self.disable_phase(PwmChannel::Ch3);
        }
    }

    /// Emergency stop: force all three channels to 0 duty immediately. The
    /// timer stays running, so this is idempotent and callable from any state.
    pub fn emergency_stop(&mut self)
        ensures
            *final(self) == old(self).spec_emergency_stop(),
            final(self).all_channels_zero(),
            final(self).wf(),
    {
        self.disable_phase(PwmChannel::Ch1);
        self.disable_phase(PwmChannel::Ch2);
        self.disable_phase(PwmChannel::Ch3);
    }

    /// The hardware's maximum duty register value.
    pub fn get_max_duty(&self) -> (r: u16)
        ensures
            r == self.max_duty,
    {
        self.max_duty
    }

    /// The duty currently applied to the given channel, in ticks.
    pub fn channel_duty(&self, channel: PwmChannel) -> (r: u16)
        ensures
            r == self.spec_channel_duty(channel),
    {
        match channel {
            PwmChannel::Ch1 => self.duty_a,
            PwmChannel::Ch2 => self.duty_b,
            PwmChannel::Ch3 => self.duty_c,
        }
    }

    /// The dead time in timer ticks, as derived at construction.
    pub fn get_dead_time_ticks(&self) -> (r: u16)
        ensures
            r == self.dead_time_ticks,
    {
        self.dead_time_ticks
    }
}

/// For any requested duty and any phase, an applied commutation pattern never
/// drives a channel above the configured duty ceiling `duty_limit`, which
/// construction fixes at `max_duty * max_duty_percent / 100`.
pub proof fn lemma_apply_within_duty_limit(
    pwm: MotorPwm,
    duty_percent: u8,
    ph_a_en: bool,
    ph_b_en: bool,
    ph_c_en: bool,
    channel: PwmChannel,
)
    ensures
        pwm.spec_apply(duty_percent, ph_a_en, ph_b_en, ph_c_en).spec_channel_duty(channel)
            <= pwm.duty_limit,
{
}

} // verus!
