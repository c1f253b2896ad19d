//! The filter as mathematics on raw values: what a state is and what one
//! update makes of it.
use crate::arith::{div_raw, magnitude, mul_raw, Format};
use vstd::prelude::*;

verus! {

/// The raw values of a filter state.
pub struct StateModel {
    pub estimate: int,
    pub uncertainty: int,
    pub measurement_uncertainty: int,
    pub process_noise: int,
}

impl StateModel {
    /// The state with the given raw values.
    pub open spec fn of(
        estimate: int,
        uncertainty: int,
        measurement_uncertainty: int,
        process_noise: int,
    ) -> StateModel {
        StateModel { estimate, uncertainty, measurement_uncertainty, process_noise }
    }

    /// The three spreads are non-negative.
    pub open spec fn wf(self) -> bool {
        &&& self.uncertainty >= 0
        &&& self.measurement_uncertainty >= 0
        &&& self.process_noise >= 0
    }

    /// The state with each spread replaced by its magnitude.
    pub open spec fn normalized(self) -> StateModel {
        StateModel {
            estimate: self.estimate,
            uncertainty: magnitude(self.uncertainty),
            measurement_uncertainty: magnitude(self.measurement_uncertainty),
            process_noise: magnitude(self.process_noise),
        }
    }

    /// The magnitude of each spread is representable in `f`.
    pub open spec fn normalizable(self, f: Format) -> bool {
        &&& magnitude(self.uncertainty) <= f.max
        &&& magnitude(self.measurement_uncertainty) <= f.max
        &&& magnitude(self.process_noise) <= f.max
    }
}

/// The Kalman gain: the share of the total spread that is the estimate's.
pub open spec fn gain(s: StateModel, f: Format) -> int {
    div_raw(s.uncertainty, s.uncertainty + s.measurement_uncertainty, f.scale)
}

/// How far the estimate moves: the gain's share of its distance to the
/// observation.
pub open spec fn correction(s: StateModel, observation: int, f: Format) -> int {
    mul_raw(gain(s, f), magnitude(observation - s.estimate), f.scale)
}

/// The estimate after an update: moved toward the observation by the
/// correction.
pub open spec fn next_estimate(s: StateModel, observation: int, f: Format) -> int {
    if observation >= s.estimate {
        s.estimate + correction(s, observation, f)
    } else {
        s.estimate - correction(s, observation, f)
    }
}

/// The part of the uncertainty that an update keeps: the share the gain
/// leaves.
pub open spec fn retained(s: StateModel, f: Format) -> int {
    mul_raw(f.scale - gain(s, f), s.uncertainty, f.scale)
}

/// The uncertainty after an update, before its sign is normalized: what is
/// retained, plus the process noise.
pub open spec fn next_uncertainty(s: StateModel, f: Format) -> int {
    retained(s, f) + s.process_noise
}

/// The state after one update with `observation`.
pub open spec fn step(s: StateModel, observation: int, f: Format) -> StateModel {
    StateModel::of(
        next_estimate(s, observation, f),
        next_uncertainty(s, f),
        s.measurement_uncertainty,
        s.process_noise,
    ).normalized()
}

/// Every intermediate value of one update is representable in `f`, and the
/// gain's divisor is not zero. Where this fails the arithmetic overflows or
/// divides by zero.
pub open spec fn step_defined(s: StateModel, observation: int, f: Format) -> bool {
    let total = s.uncertainty + s.measurement_uncertainty;
    &&& f.holds(total)
    &&& total != 0
    &&& f.holds(gain(s, f))
    &&& f.holds(magnitude(observation - s.estimate))
    &&& f.holds(correction(s, observation, f))
    &&& f.holds(next_estimate(s, observation, f))
    &&& f.holds(f.scale - gain(s, f))
    &&& f.holds(retained(s, f))
    &&& f.holds(next_uncertainty(s, f))
    &&& StateModel::of(
        next_estimate(s, observation, f),
        next_uncertainty(s, f),
        s.measurement_uncertainty,
        s.process_noise,
    ).normalizable(f)
}

} // verus!
