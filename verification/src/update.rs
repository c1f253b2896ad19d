//! The update step.
use crate::model::{step, step_defined};
use crate::number::FixedPoint;
use crate::state::KalmanState;
use vstd::prelude::*;

verus! {

/// Folds one observation into the state.
///
/// The gain is the share of the estimate's uncertainty in the total
/// uncertainty. The estimate moves toward the observation by the gain's share
/// of their distance; the uncertainty keeps the share the gain leaves, and
/// grows by the process noise.
pub fn kalman_update_fixed<T: FixedPoint>(state: &KalmanState<T>, observation: T) -> (r:
    KalmanState<T>)
    requires
        step_defined(state@, observation@, T::format()),
    ensures
        r@ == step(state@, observation@, T::format()),
        r.wf(),
{
    let total = state.uncertainty.add(state.measurement_uncertainty);
    let kalman_gain = state.uncertainty.div(total);

    let new_estimate = if observation.ge(state.estimate) {
        state.estimate.add(kalman_gain.mul(observation.sub(state.estimate)))
    } else {
        state.estimate.sub(kalman_gain.mul(state.estimate.sub(observation)))
    };

    let retained = T::one().sub(kalman_gain).mul(state.uncertainty);
    let new_uncertainty = retained.add(state.process_noise);

    KalmanState::new_fixed(
        new_estimate,
        new_uncertainty,
        state.measurement_uncertainty,
        state.process_noise,
    )
}

} // verus!
