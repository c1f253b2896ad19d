//! The filter state and its construction.
use crate::arith::magnitude;
use crate::model::StateModel;
use crate::number::FixedPoint;
use vstd::prelude::*;

verus! {

/// The state of a Kalman filter in a single variable: the estimate, how
/// uncertain it is, and the two constants that tune the filter.
#[derive(Debug, Clone, Copy)]
pub struct KalmanState<T> {
    /// Estimated value of the variable.
    pub estimate: T,
    /// Total uncertainty in the estimate.
    pub uncertainty: T,
    /// Uncertainty in each measurement.
    pub measurement_uncertainty: T,
    /// Uncertainty that the process adds between measurements.
    pub process_noise: T,
}

impl<T: FixedPoint> View for KalmanState<T> {
    type V = StateModel;

    open spec fn view(&self) -> StateModel {
        StateModel::of(
            self.estimate@,
            self.uncertainty@,
            self.measurement_uncertainty@,
            self.process_noise@,
        )
    }
}

/// The magnitude of `value`: the value itself where the type is unsigned or
/// the value is not negative, else zero minus the value.
fn magnitude_of<T: FixedPoint>(value: T) -> (r: T)
    requires
        magnitude(value@) <= T::format().max,
    ensures
        r@ == magnitude(value@),
        value@ >= 0 ==> r == value,
{
    if T::is_signed() {
        if value.is_negative() {
            proof {
                T::lemma_format();
            }
            T::zero().sub(value)
        } else {
            value
        }
    } else {
        proof {
            value.lemma_in_range();
        }
        value
    }
}

impl<T: FixedPoint> KalmanState<T> {
    /// The three spreads are non-negative.
    pub open spec fn wf(&self) -> bool {
        self@.wf()
    }

    /// A state with the given estimate and the magnitudes of the three
    /// spreads: a negative spread is taken for its absolute value.
    ///
    /// The magnitudes must be representable, which excludes only the most
    /// negative value of a signed type.
    pub fn new_fixed(
        estimate: T,
        uncertainty: T,
        measurement_uncertainty: T,
        process_noise: T,
    ) -> (r: KalmanState<T>)
        requires
            StateModel::of(
                estimate@,
                uncertainty@,
                measurement_uncertainty@,
                process_noise@,
            ).normalizable(T::format()),
        ensures
            r.estimate == estimate,
            r@ == StateModel::of(
                estimate@,
                uncertainty@,
                measurement_uncertainty@,
                process_noise@,
            ).normalized(),
            r.wf(),
            uncertainty@ >= 0 ==> r.uncertainty == uncertainty,
            measurement_uncertainty@ >= 0 ==> r.measurement_uncertainty == measurement_uncertainty,
            process_noise@ >= 0 ==> r.process_noise == process_noise,
    {
        KalmanState {
            estimate,
            uncertainty: magnitude_of(uncertainty),
            measurement_uncertainty: magnitude_of(measurement_uncertainty),
            process_noise: magnitude_of(process_noise),
        }
    }
}

} // verus!
