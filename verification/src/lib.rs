//! Open-loop six-step commutation core for a three-phase BLDC motor drive.
//!
//! The crate owns phase sequencing, safety-clamped PWM duty generation, and
//! the command/state arbitration that starts, stops, re-speeds the motor:
//! - [`six_step`]: the fixed commutation table and step arithmetic;
//! - [`pwm`]: the PWM driver model that turns a requested duty and an enable
//!   pattern into clamped per-channel duty values;
//! - [`motor`]: the top-level controller state machine and the published
//!   status snapshot;
//! - [`ingress`]: the bounded, non-blocking command queue between the
//!   transport layer and the controller's tick loop;
//! - [`protocol`]: the plain command/status types spoken over the wire;
//! - [`host_config`]: the host-side tool configuration.
//!
//! Hardware access (timer and pin setup, duty register writes) and the
//! transport layer live outside this crate; they exchange plain values with
//! the types here.

pub mod host_config;
pub mod ingress;
pub mod motor;
pub mod protocol;
pub mod pwm;
pub mod six_step;
