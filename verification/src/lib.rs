//! A Kalman filter in a single variable, over binary fixed-point numbers.
//!
//! A [`KalmanState`] holds an estimate of a quantity, the uncertainty of that
//! estimate, and two tuning constants. [`kalman_update_fixed`] folds one noisy
//! observation into a state and gives the next state; a caller keeps the
//! state and calls it once per observation.
//!
//! The numbers are those of [`FixedPoint`] types, which `formats` offers for
//! three formats of the `fixed` crate. `model` says what an update computes,
//! on raw values; `laws` proves what follows from it: the estimate moves
//! toward each observation without passing it, the uncertainty stays at or
//! above the process noise, and a rising sequence is tracked within a stated
//! tolerance.
pub mod arith;
pub mod formats;
pub mod laws;
pub mod model;
pub mod number;
pub mod state;
pub mod update;

pub use crate::formats::{I16F16, I8F24, U32F32};
pub use crate::number::FixedPoint;
pub use crate::state::KalmanState;
pub use crate::update::kalman_update_fixed;
