//! Core of a real-time rendering frame loop, verified with Verus.
//!
//! The crate models the state that a single-threaded, event-driven renderer
//! must keep consistent: the presentation-surface configuration and the depth
//! buffer that must match it, a fly camera integrated from accumulated input,
//! per-frame timing statistics, and the recovery decisions taken when
//! presenting a frame fails.  Continuous quantities (positions, angles,
//! seconds, frame rates) are held as fixed-point integers with six decimal
//! places, so every update rule is stated and proved exactly.
//!
//! GPU devices, windows and the immediate-mode overlay stay outside: a host
//! program owns them, feeds events and decoded sizes in, and carries the
//! actions and dimensions that come back out to the graphics API.

pub mod camera;
pub mod fixed;
pub mod instance;
pub mod state;
pub mod texture;
pub mod trig;

pub use fixed::FX_ONE;
