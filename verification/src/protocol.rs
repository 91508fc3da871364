//! Plain command and status types shared with the transport layer.
//!
//! The transport layer decodes inbound frames into these values and encodes
//! outbound status from them; this crate only ever sees the plain values.

use vstd::prelude::*;

verus! {

/// Button events from the board's user button.
#[derive(Clone, Copy, Debug, PartialEq, Eq, Structural)]
pub enum ButtonEvent {
    SingleClick,
    DoubleClick,
    Hold,
}

/// Motor control commands. Commands are idempotent overwrites of the
/// controller's target state, not deltas.
#[derive(Clone, Debug, PartialEq, Eq, Structural)]
pub enum MotorCommand {
    /// Stop the motor and force all phases off immediately.
    Stop,
    /// Start the motor at the given duty (0-100 %; out-of-range values are
    /// clamped, never rejected).
    Start { duty: u8 },
    /// Adjust the duty while running (0-100 %; clamped) without disturbing
    /// the rotation phase.
    SetSpeed { duty: u8 },
}

/// Motor operational state.
///
/// `Error` is reserved: no command or internal trigger enters or exits it in
/// the present command set. It is kept for a future fault-detection path
/// rather than filled in with invented detection logic.
#[derive(Clone, Copy, Debug, PartialEq, Eq, Structural)]
pub enum MotorState {
    Stopped,
    Running,
    Error,
}

/// Read-only status projection, refreshed after every tick. It is diagnostic
/// only and never used for control decisions.
#[derive(Clone, Debug, PartialEq, Eq, Structural)]
pub struct MotorStatus {
    /// Operational state.
    pub state: MotorState,
    /// Current duty cycle (0-100 %).
    pub duty: u8,
    /// Current commutation step (0-5).
    pub step: u8,
}

} // verus!
