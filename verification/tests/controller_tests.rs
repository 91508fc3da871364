use oxifoc::ingress::CommandIngress;
use oxifoc::motor::{MotorController, MotorParams, StatusPublisher};
use oxifoc::protocol::{MotorCommand, MotorState, MotorStatus};
use oxifoc::pwm::{MotorPwm, MotorPwmConfig, PwmChannel};

/// A controller around a driver with max_duty 1000 and the default 15 %
/// ceiling, so duty_limit is 150 ticks.
fn controller() -> MotorController {
    MotorController::new(MotorPwm::new(&MotorPwmConfig::default(), 1000))
}

fn channel_duties(m: &MotorController) -> (u16, u16, u16) {
    (
        m.pwm.channel_duty(PwmChannel::Ch1),
        m.pwm.channel_duty(PwmChannel::Ch2),
        m.pwm.channel_duty(PwmChannel::Ch3),
    )
}

#[test]
fn new_controller_is_stopped_at_step_zero() {
    let m = controller();
    let status = m.get_motor_status();
    assert_eq!(status.state, MotorState::Stopped);
    assert_eq!(status.duty, 0);
    assert_eq!(status.step, 0);
    assert_eq!(m.get_commutation_period(), 500);
}

#[test]
fn start_with_overlimit_duty_is_clamped_to_100() {
    let mut m = controller();
    m.handle_command(&MotorCommand::Start { duty: 150 });
    let status = m.get_motor_status();
    assert_eq!(status.duty, 100);
    assert_eq!(status.state, MotorState::Running);
    assert_eq!(status.step, 0);
}

#[test]
fn start_resets_step_to_zero() {
    let mut m = controller();
    m.handle_command(&MotorCommand::Start { duty: 50 });
    m.commutate();
    m.commutate();
    m.commutate();
    assert_eq!(m.get_motor_status().step, 2);
    m.handle_command(&MotorCommand::Start { duty: 50 });
    assert_eq!(m.get_motor_status().step, 0);
    m.commutate();
    assert_eq!(m.get_motor_status().step, 0);
}

#[test]
fn six_ticks_return_to_step_zero_and_first_pattern() {
    let mut m = controller();
    m.handle_command(&MotorCommand::Start { duty: 50 });

    m.commutate();
    let first_pattern = channel_duties(&m);
    assert_eq!(m.get_motor_status().step, 0);

    for _ in 0..5 {
        m.commutate();
    }
    assert_eq!(m.get_motor_status().step, 5);

    // The seventh tick applies the same pattern as the first and publishes
    // step 0 again: six ticks brought the controller back to step 0.
    m.commutate();
    assert_eq!(channel_duties(&m), first_pattern);
    assert_eq!(m.get_motor_status().step, 0);
}

#[test]
fn stop_while_running_is_immediate() {
    let mut m = controller();
    m.handle_command(&MotorCommand::Start { duty: 80 });
    m.commutate();
    assert_ne!(channel_duties(&m), (0, 0, 0));

    // No tick between the command and the observation: the channels and the
    // published duty must already be at 0.
    m.handle_command(&MotorCommand::Stop);
    assert_eq!(m.get_motor_status().duty, 0);
    assert_eq!(m.get_motor_status().state, MotorState::Stopped);
    assert_eq!(channel_duties(&m), (0, 0, 0));
}

#[test]
fn set_speed_does_not_reset_step() {
    let mut m = controller();
    m.handle_command(&MotorCommand::Start { duty: 50 });
    m.commutate();
    m.commutate();
    let step_before = m.get_motor_status().step;

    m.handle_command(&MotorCommand::SetSpeed { duty: 30 });
    let status = m.get_motor_status();
    assert_eq!(status.step, step_before);
    assert_eq!(status.duty, 30);
    assert_eq!(status.state, MotorState::Running);
}

#[test]
fn set_speed_takes_effect_on_next_tick() {
    let config = MotorPwmConfig { pwm_freq: 20_000, dead_time_ns: 2_000, max_duty_percent: 100 };
    let mut m = MotorController::new(MotorPwm::new(&config, 1000));
    m.handle_command(&MotorCommand::Start { duty: 20 });
    m.commutate();
    // Step0 enables phases A and B at 1000 * 20 / 100 = 200 ticks.
    assert_eq!(channel_duties(&m), (200, 200, 0));
    m.handle_command(&MotorCommand::SetSpeed { duty: 40 });
    // The hardware still carries the old duty until the next tick.
    assert_eq!(channel_duties(&m), (200, 200, 0));
    m.commutate();
    // Step1 enables phases A and C at 1000 * 40 / 100 = 400 ticks.
    assert_eq!(channel_duties(&m), (400, 0, 400));
}

#[test]
fn commutate_while_stopped_forces_channels_off() {
    let mut m = controller();
    m.handle_command(&MotorCommand::Start { duty: 60 });
    m.commutate();
    let step_before = m.get_motor_status().step;
    m.handle_command(&MotorCommand::Stop);

    // Every non-Running tick forces the hardware off and advances nothing.
    m.commutate();
    m.commutate();
    assert_eq!(channel_duties(&m), (0, 0, 0));
    assert_eq!(m.get_motor_status().step, step_before);
    assert_eq!(m.get_motor_status().state, MotorState::Stopped);
}

#[test]
fn any_non_running_state_forces_channels_off() {
    // The Error state is reserved: no command enters it. Should a future
    // fault path publish it, the fail-safe tick must still hold.
    let mut m = controller();
    m.handle_command(&MotorCommand::Start { duty: 70 });
    m.commutate();
    assert_ne!(channel_duties(&m), (0, 0, 0));
    m.status.set_motor_state(MotorState::Error);
    m.commutate();
    assert_eq!(channel_duties(&m), (0, 0, 0));
    assert_eq!(m.get_motor_status().state, MotorState::Error);
}

#[test]
fn tick_drains_at_most_one_command() {
    let mut m = controller();
    let mut ingress = CommandIngress::new(4);
    assert!(ingress.try_send(MotorCommand::Start { duty: 60 }));
    assert!(ingress.try_send(MotorCommand::SetSpeed { duty: 10 }));

    m.tick(&mut ingress);
    // Only the Start was drained this tick; the SetSpeed waits.
    assert_eq!(ingress.len(), 1);
    assert_eq!(m.get_motor_status().duty, 60);
    assert_eq!(m.get_motor_status().state, MotorState::Running);

    m.tick(&mut ingress);
    assert_eq!(ingress.len(), 0);
    assert_eq!(m.get_motor_status().duty, 10);
}

#[test]
fn tick_without_commands_just_commutates() {
    let mut m = controller();
    let mut ingress = CommandIngress::new(4);
    m.handle_command(&MotorCommand::Start { duty: 50 });
    m.tick(&mut ingress);
    m.tick(&mut ingress);
    assert_eq!(m.get_motor_status().step, 1);
}

#[test]
fn full_queue_drops_newest_command() {
    let mut ingress = CommandIngress::new(4);
    assert_eq!(ingress.capacity(), 4);
    assert!(ingress.try_send(MotorCommand::Start { duty: 10 }));
    assert!(ingress.try_send(MotorCommand::SetSpeed { duty: 20 }));
    assert!(ingress.try_send(MotorCommand::SetSpeed { duty: 30 }));
    assert!(ingress.try_send(MotorCommand::Stop));
    // The queue is full: the newest enqueue attempt is silently dropped.
    assert!(!ingress.try_send(MotorCommand::SetSpeed { duty: 40 }));
    assert_eq!(ingress.len(), 4);

    // Drained oldest-first, without the dropped command.
    assert_eq!(ingress.try_receive(), Some(MotorCommand::Start { duty: 10 }));
    assert_eq!(ingress.try_receive(), Some(MotorCommand::SetSpeed { duty: 20 }));
    assert_eq!(ingress.try_receive(), Some(MotorCommand::SetSpeed { duty: 30 }));
    assert_eq!(ingress.try_receive(), Some(MotorCommand::Stop));
    assert_eq!(ingress.try_receive(), None);
}

#[test]
fn status_publisher_fields_update_independently() {
    let mut status = StatusPublisher { state: MotorState::Stopped, duty: 0, step: 0 };
    status.set_motor_state(MotorState::Running);
    assert_eq!(status.get_motor_state(), MotorState::Running);
    status.set_motor_duty(42);
    assert_eq!(status.get_motor_duty(), 42);
    status.set_motor_step(3);
    assert_eq!(status.get_motor_step(), 3);
    assert_eq!(
        status.get_motor_status(),
        MotorStatus { state: MotorState::Running, duty: 42, step: 3 }
    );
}

#[test]
fn commutation_period_is_tunable() {
    let mut m = controller();
    m.set_commutation_period_ms(20);
    assert_eq!(m.get_commutation_period(), 20);
}

#[test]
fn default_motor_params() {
    let params = MotorParams::default();
    assert_eq!(params.pole_pairs, 7);
    assert_eq!(params.kv_rating, 700);
}
