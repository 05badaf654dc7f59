//! A small homeostatic regulation engine.
//!
//! A fixed set of zones each carries a continuous activity level that a
//! discrete-time proportional controller pulls toward an equilibrium target,
//! damped by an exponential moving average of past activity.  External
//! stimuli may perturb any zone at any time through a bounded influence
//! operation.  All activity values live on a fixed-point micro-unit scale
//! (see [`zone::SCALE`]), so the control law is exact integer arithmetic.
//!
//! The engine itself is single-threaded; [`shared::SharedEngine`] wraps it in
//! a verified reader-writer lock so that a periodic tick task and any number
//! of concurrent callers can mutate and observe it without ever seeing a
//! half-updated state.

mod ambient;
pub mod engine;
pub mod evolution;
pub mod shared;
pub mod zone;
