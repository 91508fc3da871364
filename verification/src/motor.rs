//! Top-level motor controller: command/state arbitration and the per-tick
//! commutation action.
//!
//! The controller owns a PWM driver, the current commutation step, the target
//! duty, and the commutation period. Commands mutate the target state
//! immediately; once per commutation period the tick drains at most one
//! queued command and then advances the six-step table. Every non-Running
//! tick forces the hardware off — a fail-safe default that protects against a
//! missed or out-of-order transition, not only the transition edge.

use vstd::prelude::*;

use crate::ingress::CommandIngress;
use crate::protocol::{MotorCommand, MotorState, MotorStatus};
use crate::pwm::MotorPwm;
use crate::six_step::CommutationStep;

verus! {

/// Motor physical parameters.
pub struct MotorParams {
    /// Number of pole pairs.
    pub pole_pairs: u8,
    /// KV rating (RPM per volt).
    pub kv_rating: u16,
}

impl Default for MotorParams {
    /// A 14-pole (7 pole-pair) outrunner rated at 700 KV.
    fn default() -> (r: Self)
        ensures
            r.pole_pairs == 7,
            r.kv_rating == 700,
    {
        Self { pole_pairs: 7, kv_rating: 700 }
    }
}

/// Latest published motor status, one independently updatable field per
/// datum.
///
/// The controller is the single writer; any number of readers may take a
/// snapshot at any time. Because the fields update independently, a reader
/// may observe a torn combination (an updated duty paired with a stale step)
/// during a transition window — an intentional relaxed-consistency contract:
/// status is diagnostic only and never drives control decisions.
pub struct StatusPublisher {
    /// Last published operational state.
    pub state: MotorState,
    /// Last published duty cycle (0-100 %).
    pub duty: u8,
    /// Last published commutation step (0-5).
    pub step: u8,
}

impl StatusPublisher {
    /// Publish the motor state.
    pub fn set_motor_state(&mut self, state: MotorState)
        ensures
            *final(self) == (StatusPublisher { state, ..*old(self) }),
    {
        self.state = state;
    }

    /// The last published motor state.
    pub fn get_motor_state(&self) -> (r: MotorState)
        ensures
            r == self.state,
    {
        self.state
    }

    /// Publish the duty cycle.
    pub fn set_motor_duty(&mut self, duty: u8)
        ensures
            *final(self) == (StatusPublisher { duty, ..*old(self) }),
    {
        self.duty = duty;
    }

    /// The last published duty cycle.
    pub fn get_motor_duty(&self) -> (r: u8)
        ensures
            r == self.duty,
    {
        self.duty
    }

    /// Publish the commutation step.
    pub fn set_motor_step(&mut self, step: u8)
        ensures
            *final(self) == (StatusPublisher { step, ..*old(self) }),
    {
        self.step = step;
    }

    /// The last published commutation step.
    pub fn get_motor_step(&self) -> (r: u8)
        ensures
            r == self.step,
    {
        self.step
    }

    /// A snapshot of the latest published status.
    pub fn get_motor_status(&self) -> (r: MotorStatus)
        ensures
            r == (MotorStatus { state: self.state, duty: self.duty, step: self.step }),
    {
        MotorStatus { state: self.state, duty: self.duty, step: self.step }
    }
}

/// Motor control state machine.
pub struct MotorController {
    /// PWM driver for the three phases.
    pub pwm: MotorPwm,
    /// Published status snapshot, refreshed on every transition and tick.
    pub status: StatusPublisher,
    /// The commutation step the next Running tick will apply.
    pub current_step: CommutationStep,
    /// Target duty cycle (0-100 %).
    pub target_duty: u8,
    /// Time between successive step advances, in milliseconds.
    pub commutation_period_ms: u32,
}

impl MotorController {
    /// The controller's invariant: the PWM channels respect their ceiling,
    /// the target duty and the published duty are in 0..=100, and the
    /// published step is in 0..6.
    pub open spec fn wf(self) -> bool {
        &&& self.pwm.wf()
        &&& self.target_duty <= 100
        &&& self.status.duty <= 100
        &&& self.status.step <= 5
    }

    /// `duty` clamped to at most 100 %.
    pub open spec fn clamp_duty(duty: u8) -> u8 {
        if duty > 100 { 100 } else { duty }
    }

    /// The controller after a Start command: the clamped duty becomes the
    /// target, the state becomes Running, and the step resets to 0 so that
    /// every start begins from a known phase, never mid-sequence.
    pub open spec fn spec_start(self, duty: u8) -> Self {
        let d = Self::clamp_duty(duty);
        Self {
            target_duty: d,
            current_step: CommutationStep::Step0,
            status: StatusPublisher { state: MotorState::Running, duty: d, step: 0 },
            ..self
        }
    }

    /// The controller after a Stop command: target duty 0, all PWM channels
    /// forced to 0 immediately (not deferred to the next tick), state
    /// Stopped. The commutation step is left alone.
    pub open spec fn spec_stop(self) -> Self {
        Self {
            target_duty: 0,
            pwm: self.pwm.spec_emergency_stop(),
            status: StatusPublisher { state: MotorState::Stopped, duty: 0, ..self.status },
            ..self
        }
    }

    /// The controller after a SetSpeed command: only the target duty and the
    /// published duty change. The step is not reset, so a speed change takes
    /// effect at the next tick without disturbing the rotation phase.
    pub open spec fn spec_set_speed(self, duty: u8) -> Self {
        let d = Self::clamp_duty(duty);
        Self {
            target_duty: d,
            status: StatusPublisher { duty: d, ..self.status },
            ..self
        }
    }

    /// The controller after handling one command.
    pub open spec fn spec_handle_command(self, cmd: MotorCommand) -> Self {
        match cmd {
            MotorCommand::Stop => self.spec_stop(),
            MotorCommand::Start { duty } => self.spec_start(duty),
            MotorCommand::SetSpeed { duty } => self.spec_set_speed(duty),
        }
    }

    /// The controller after one commutation tick.
    ///
    /// When not Running, the tick forces the hardware off and changes nothing
    /// else. When Running, it applies the current step's pattern at the
    /// target duty, publishes the step it applied, and advances to the next
    /// step.
    pub open spec fn spec_commutate(self) -> Self {
        if self.status.state != MotorState::Running {
            Self { pwm: self.pwm.spec_emergency_stop(), ..self }
        } else {
            let (ph_a_en, ph_b_en, ph_c_en, _, _, _) = self.current_step.spec_phase_states();
            Self {
                pwm: self.pwm.spec_apply(self.target_duty, ph_a_en, ph_b_en, ph_c_en),
                status: StatusPublisher {
                    step: self.current_step.step_number() as u8,
                    ..self.status
                },
                current_step: self.current_step.spec_next(),
                ..self
            }
        }
    }

    /// The controller after one full tick: the drained command (if any) is
    /// handled first, then the commutation action runs.
    pub open spec fn spec_tick(self, drained: Option<MotorCommand>) -> Self {
        match drained {
            Some(cmd) => self.spec_handle_command(cmd).spec_commutate(),
            None => self.spec_commutate(),
        }
    }

    /// A new controller around a configured PWM driver: Stopped, duty 0,
    /// step 0, with a very slow initial commutation period for safe first
    /// tests.
    pub fn new(pwm: MotorPwm) -> (r: Self)
        requires
            pwm.wf(),
        ensures
            r.pwm == pwm,
            r.status == (StatusPublisher { state: MotorState::Stopped, duty: 0, step: 0 }),
            r.current_step == CommutationStep::Step0,
            r.target_duty == 0,
            r.commutation_period_ms == 500,
            r.wf(),
    {
        Self {
            pwm,
            status: StatusPublisher { state: MotorState::Stopped, duty: 0, step: 0 },
            current_step: CommutationStep::Step0,
            target_duty: 0,
            commutation_period_ms: 500,
        }
    }

    /// Start the motor at the given duty cycle (clamped to 100 %).
    fn start(&mut self, duty: u8)
        requires
            old(self).wf(),
        ensures
            *final(self) == old(self).spec_start(duty),
            final(self).wf(),
    {
        let duty = if duty > 100 { 100 } else { duty };
        self.target_duty = duty;
        self.status.set_motor_duty(duty);
        self.status.set_motor_state(MotorState::Running);

        // Reset to step 0
        self.current_step = CommutationStep::Step0;
        self.status.set_motor_step(0);
    }

    /// Stop the motor, forcing all phases off immediately.
    fn stop(&mut self)
        requires
            old(self).wf(),
        ensures
            *final(self) == old(self).spec_stop(),
            final(self).wf(),
    {
        self.target_duty = 0;
        self.pwm.emergency_stop();
        self.status.set_motor_state(MotorState::Stopped);
        self.status.set_motor_duty(0);
    }

    /// Adjust the duty cycle (clamped to 100 %) without touching the step.
    fn set_speed(&mut self, duty: u8)
        requires
            old(self).wf(),
        ensures
            *final(self) == old(self).spec_set_speed(duty),
            final(self).wf(),
    {
        let duty = if duty > 100 { 100 } else { duty };
        self.target_duty = duty;
        self.status.set_motor_duty(duty);
    }

    /// Handle one motor command. Out-of-range duty values are silently
    /// clamped, never rejected; no command returns an error.
    pub fn handle_command(&mut self, cmd: &MotorCommand)
        requires
            old(self).wf(),
        ensures
            *final(self) == old(self).spec_handle_command(*cmd),
            final(self).wf(),
    {
        match cmd {
            MotorCommand::Stop => {
                self.stop();
            }
            MotorCommand::Start { duty } => {
                self.start(*duty);
            }
            MotorCommand::SetSpeed { duty } => {
                self.set_speed(*duty);
            }
        }
    }

    /// Perform one commutation step.
    ///
    /// If the motor is not Running, all phases are forced off and nothing
    /// else changes. Otherwise the current step's pattern is applied at the
    /// target duty, the applied step is published, and the step advances.
    pub fn commutate(&mut self)
        requires
            old(self).wf(),
        ensures
            *final(self) == old(self).spec_commutate(),
            final(self).wf(),
    {
        if self.status.get_motor_state() != MotorState::Running {
            // Motor not running, ensure all phases are off
            self.pwm.emergency_stop();
            return;
        }

        // Get phase states for current step
        let (ph_a_en, ph_b_en, ph_c_en, _ph_a_high, _ph_b_high, _ph_c_high) =
            self.current_step.get_phase_states();

        // Apply commutation pattern with current duty cycle
        let duty = self.target_duty;
        self.pwm.apply_commutation(duty, ph_a_en, ph_b_en, ph_c_en);

        // Publish the step that was just applied
        let step = self.current_step.as_u8();
        self.status.set_motor_step(step);

        // Advance to next step
        self.current_step = self.current_step.next();
    }

    /// One controller tick: drain at most one queued command, non-blockingly,
    /// then perform the commutation action.
    ///
    /// If several commands arrived since the last tick, only the oldest is
    /// drained this tick; the rest wait — an accepted latency trade-off,
    /// since commands are idempotent overwrites of the target state.
    pub fn tick(&mut self, ingress: &mut CommandIngress)
        requires
            old(self).wf(),
            old(ingress).wf(),
        ensures
            final(self).wf(),
            final(ingress).wf(),
            final(ingress).spec_capacity() == old(ingress).spec_capacity(),
            old(ingress)@.len() == 0 ==> final(ingress)@ == old(ingress)@
                && *final(self) == old(self).spec_tick(None),
            old(ingress)@.len() > 0 ==> final(ingress)@ == old(ingress)@.skip(1)
                && *final(self) == old(self).spec_tick(Some(old(ingress)@[0])),
    {
        if let Some(cmd) = ingress.try_receive() {
            self.handle_command(&cmd);
        }
        self.commutate();
    }

    /// A snapshot of the latest published status.
    pub fn get_motor_status(&self) -> (r: MotorStatus)
        ensures
            r == (MotorStatus {
                state: self.status.state,
                duty: self.status.duty,
                step: self.status.step,
            }),
    {
        self.status.get_motor_status()
    }

    /// The time to wait between commutation steps, in milliseconds.
    pub fn get_commutation_period(&self) -> (r: u64)
        ensures
            r == self.commutation_period_ms,
    {
        self.commutation_period_ms as u64
    }

    /// Set the commutation period (for speed tuning).
    pub fn set_commutation_period_ms(&mut self, period_ms: u32)
        ensures
            *final(self) == (MotorController { commutation_period_ms: period_ms, ..*old(self) }),
    {
        self.commutation_period_ms = period_ms;
    }
}

/// A Stop issued while Running zeroes the published duty and every PWM
/// channel immediately, without waiting for the next tick boundary.
pub proof fn lemma_stop_is_immediate(m: MotorController)
    requires
        m.status.state is Running,
    ensures
        m.spec_handle_command(MotorCommand::Stop).status.duty == 0,
        m.spec_handle_command(MotorCommand::Stop).status.state is Stopped,
        m.spec_handle_command(MotorCommand::Stop).pwm.all_channels_zero(),
{
}

/// A SetSpeed issued while Running does not reset the step counter: both the
/// internal step and the published step are exactly what they were before the
/// command. The step only advances on a tick, never on a command.
pub proof fn lemma_set_speed_preserves_step(m: MotorController, duty: u8)
    requires
        m.status.state is Running,
    ensures
        m.spec_handle_command(MotorCommand::SetSpeed { duty }).current_step == m.current_step,
        m.spec_handle_command(MotorCommand::SetSpeed { duty }).status.step == m.status.step,
        m.spec_handle_command(MotorCommand::SetSpeed { duty }).status.state == m.status.state,
{
}

/// Six Running ticks with no intervening command advance the commutation
/// step full circle: the controller is back at the step it started from, so
/// a seventh tick applies the same phase pattern as the first.
pub proof fn lemma_six_ticks_full_circle(m: MotorController)
    requires
        m.status.state is Running,
    ensures
        m.spec_commutate().spec_commutate().spec_commutate().spec_commutate().spec_commutate()
            .spec_commutate().current_step == m.current_step,
        m.spec_commutate().spec_commutate().spec_commutate().spec_commutate().spec_commutate()
            .spec_commutate().status.state is Running,
{
    crate::six_step::lemma_next_six_is_identity(m.current_step);
}

/// A Start command clamps an out-of-range duty: the published duty equals the
/// requested duty when that is at most 100, and 100 otherwise.
pub proof fn lemma_start_clamps_duty(m: MotorController, duty: u8)
    ensures
        m.spec_handle_command(MotorCommand::Start { duty }).status.duty
            == MotorController::clamp_duty(duty),
        MotorController::clamp_duty(duty) <= 100,
        duty <= 100 ==> m.spec_handle_command(MotorCommand::Start { duty }).status.duty == duty,
{
}

} // verus!

