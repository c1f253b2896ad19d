//! What holds of the update step on every state, and of runs of updates on
//! every sequence of observations.
use crate::arith::{
    distance, div_raw, lemma_div_raw_is_fraction, lemma_floor_brackets, lemma_mul_raw_shrinks,
    magnitude, Format,
};
use crate::model::{
    correction, gain, next_estimate, next_uncertainty, retained, step, step_defined, StateModel,
};
use crate::number::FixedPoint;
use crate::state::KalmanState;
use vstd::prelude::*;

verus! {

/// The state after one update for each of `observations`, in order.
pub open spec fn run(s: StateModel, observations: Seq<int>, f: Format) -> StateModel
    decreases observations.len(),
{
    if observations.len() == 0 {
        s
    } else {
        step(run(s, observations.drop_last(), f), observations.last(), f)
    }
}

/// Each update of the run is defined.
pub open spec fn run_defined(s: StateModel, observations: Seq<int>, f: Format) -> bool
    decreases observations.len(),
{
    observations.len() == 0 || {
        &&& run_defined(s, observations.drop_last(), f)
        &&& step_defined(run(s, observations.drop_last(), f), observations.last(), f)
    }
}

/// Every observation of the sequence is `value`.
pub open spec fn constant(observations: Seq<int>, value: int) -> bool {
    forall|i: int| 0 <= i < observations.len() ==> observations[i] == value
}

/// No observation is below the one before it, nor above it by more than
/// `limit`.
pub open spec fn rising(observations: Seq<int>, limit: int) -> bool {
    forall|i: int|
        0 < i < observations.len() ==> 0 <= #[trigger] observations[i] - observations[i - 1]
            <= limit
}

/// The lesser of the uncertainty and the process noise: the uncertainty of
/// no state of a run from `s` is below it.
pub open spec fn least_uncertainty(s: StateModel) -> int {
    if s.uncertainty <= s.process_noise {
        s.uncertainty
    } else {
        s.process_noise
    }
}

/// The gain at the least uncertainty: no update of a run from `s` has a gain
/// below it.
pub open spec fn least_gain(s: StateModel, f: Format) -> int {
    div_raw(least_uncertainty(s), least_uncertainty(s) + s.measurement_uncertainty, f.scale)
}

/// The gain is a share: it lies between zero and one, and is the exact share
/// of the uncertainty in the total, rounded down.
pub proof fn lemma_gain_is_share(s: StateModel, f: Format)
    requires
        f.valid(),
        s.wf(),
        s.uncertainty + s.measurement_uncertainty > 0,
    ensures
        0 <= gain(s, f) <= f.scale,
        gain(s, f) * (s.uncertainty + s.measurement_uncertainty) <= s.uncertainty * f.scale,
        s.uncertainty * f.scale < (gain(s, f) + 1) * (s.uncertainty + s.measurement_uncertainty),
{
    let total = s.uncertainty + s.measurement_uncertainty;
    lemma_div_raw_is_fraction(s.uncertainty, total, f.scale);
    assert((gain(s, f) + 1) * total == gain(s, f) * total + total) by (nonlinear_arith);
}

/// With the same measurement uncertainty, a more uncertain estimate has no
/// smaller a gain.
pub proof fn lemma_gain_grows_with_uncertainty(a: StateModel, b: StateModel, f: Format)
    requires
        f.valid(),
        a.wf(),
        b.wf(),
        a.measurement_uncertainty == b.measurement_uncertainty,
        a.uncertainty <= b.uncertainty,
        a.uncertainty + a.measurement_uncertainty > 0,
    ensures
        gain(a, f) <= gain(b, f),
{
    let scale = f.scale;
    let m = a.measurement_uncertainty;
    let (ua, ub) = (a.uncertainty, b.uncertainty);
    let (ta, tb) = (ua + m, ub + m);
    let (ga, gb) = (gain(a, f), gain(b, f));
    lemma_gain_is_share(a, f);
    lemma_gain_is_share(b, f);
    let both = ta * tb;
    assert(both > 0) by (nonlinear_arith)
        requires
            both == ta * tb,
            ta > 0,
            tb > 0,
    ;
    assert(ga * both <= ua * scale * tb) by (nonlinear_arith)
        requires
            ga * ta <= ua * scale,
            both == ta * tb,
            tb > 0,
    ;
    assert(ua * scale * tb <= ub * scale * ta) by (nonlinear_arith)
        requires
            ta == ua + m,
            tb == ub + m,
            0 <= ua <= ub,
            0 <= m,
            scale > 0,
    ;
    assert(ub * scale * ta < (gb + 1) * both) by (nonlinear_arith)
        requires
            ub * scale < (gb + 1) * tb,
            both == ta * tb,
            ta > 0,
    ;
    assert(ga < gb + 1) by (nonlinear_arith)
        requires
            ga * both < (gb + 1) * both,
            both > 0,
    ;
}

/// One update moves the estimate toward the observation and never past it:
/// the new estimate lies between the old one and the observation, and its
/// distance to the observation is the old distance less the correction.
pub proof fn lemma_estimate_approaches_observation(s: StateModel, observation: int, f: Format)
    requires
        f.valid(),
        s.wf(),
        s.uncertainty + s.measurement_uncertainty > 0,
    ensures
        0 <= correction(s, observation, f) <= distance(observation, s.estimate),
        observation >= s.estimate ==> s.estimate <= step(s, observation, f).estimate
            <= observation,
        observation <= s.estimate ==> observation <= step(s, observation, f).estimate
            <= s.estimate,
        distance(observation, step(s, observation, f).estimate) == distance(
            observation,
            s.estimate,
        ) - correction(s, observation, f),
{
    lemma_gain_is_share(s, f);
    lemma_mul_raw_shrinks(gain(s, f), magnitude(observation - s.estimate), f.scale);
}

/// One update keeps the uncertainty between the process noise and the process
/// noise more than before. What it retains of the old uncertainty is at most
/// the measurement uncertainty, up to the rounding of the gain; so the new
/// uncertainty shrinks exactly when the process noise is no more than what
/// the gain took away.
pub proof fn lemma_uncertainty_bounds(s: StateModel, observation: int, f: Format)
    requires
        f.valid(),
        s.wf(),
        s.uncertainty + s.measurement_uncertainty > 0,
    ensures
        step(s, observation, f).uncertainty == retained(s, f) + s.process_noise,
        0 <= retained(s, f) <= s.uncertainty,
        retained(s, f) <= s.measurement_uncertainty + s.uncertainty / f.scale,
        s.process_noise <= step(s, observation, f).uncertainty <= s.uncertainty
            + s.process_noise,
        step(s, observation, f).uncertainty <= s.uncertainty <==> s.process_noise
            <= s.uncertainty - retained(s, f),
{
    let scale = f.scale;
    let u = s.uncertainty;
    let m = s.measurement_uncertainty;
    let total = u + m;
    let g = gain(s, f);
    let rest = scale - g;
    let kept = retained(s, f);
    lemma_gain_is_share(s, f);
    lemma_mul_raw_shrinks(rest, u, scale);
    lemma_floor_brackets(rest * u, scale);
    lemma_floor_brackets(u, scale);
    let whole = u / scale;
    if u == 0 {
        assert(rest * u == 0) by (nonlinear_arith)
            requires
                u == 0,
        ;
    } else {
        assert(rest * total < scale * m + total) by (nonlinear_arith)
            requires
                rest == scale - g,
                total == u + m,
                u * scale < (g + 1) * total,
        ;
        assert(rest * u < scale * m + u) by (nonlinear_arith)
            requires
                rest * total < scale * m + total,
                total == u + m,
                0 < u,
                0 <= m,
                0 < scale,
                0 <= rest,
        ;
    }
    assert(kept <= m + whole) by (nonlinear_arith)
        requires
            kept * scale <= rest * u,
            rest * u < scale * m + u || (rest * u == 0 && u == 0),
            u < whole * scale + scale,
            0 <= m,
            0 < scale,
            0 <= whole * scale,
    ;
}

/// An update is defined on a well-formed state whenever the total
/// uncertainty is positive and representable, the observation's distance to
/// the estimate is representable, and so is the new uncertainty. For the
/// last, it is enough that the old uncertainty and the process noise add up
/// to a representable value.
pub proof fn lemma_step_defined(s: StateModel, observation: int, f: Format)
    requires
        f.valid(),
        s.wf(),
        f.holds(s.estimate),
        f.holds(observation),
        0 < s.uncertainty + s.measurement_uncertainty <= f.max,
        distance(observation, s.estimate) <= f.max,
        next_uncertainty(s, f) <= f.max || s.uncertainty + s.process_noise <= f.max,
    ensures
        step_defined(s, observation, f),
{
    lemma_gain_is_share(s, f);
    lemma_estimate_approaches_observation(s, observation, f);
    lemma_uncertainty_bounds(s, observation, f);
    assert(next_estimate(s, observation, f) == step(s, observation, f).estimate);
}

/// A run from a well-formed state ends in a well-formed state with the same
/// two tuning constants, and every prefix of a defined run is defined.
pub proof fn lemma_run_keeps_constants(
    s: StateModel,
    observations: Seq<int>,
    count: int,
    f: Format,
)
    requires
        s.wf(),
        0 <= count <= observations.len(),
        run_defined(s, observations, f),
    ensures
        run_defined(s, observations.take(count), f),
        run(s, observations, f).wf(),
        run(s, observations, f).measurement_uncertainty == s.measurement_uncertainty,
        run(s, observations, f).process_noise == s.process_noise,
    decreases observations.len(),
{
    if observations.len() == 0 {
        assert(observations.take(count) =~= observations);
    } else {
        let shorter = observations.drop_last();
        if count == observations.len() {
            assert(observations.take(count) =~= observations);
            lemma_run_keeps_constants(s, shorter, 0, f);
        } else {
            assert(shorter.take(count) =~= observations.take(count));
            lemma_run_keeps_constants(s, shorter, count, f);
        }
    }
}

/// Fed one observation again and again, the estimate converges on it
/// monotonically: from any point of the run to its end, the distance to the
/// observation does not grow, and the estimate stays on its side of the
/// observation.
pub proof fn lemma_constant_observation_converges(
    s: StateModel,
    observations: Seq<int>,
    value: int,
    count: int,
    f: Format,
)
    requires
        f.valid(),
        s.wf(),
        constant(observations, value),
        0 <= count <= observations.len(),
        run_defined(s, observations, f),
    ensures
        distance(value, run(s, observations, f).estimate) <= distance(
            value,
            run(s, observations.take(count), f).estimate,
        ),
        run(s, observations.take(count), f).estimate <= value ==> run(
            s,
            observations.take(count),
            f,
        ).estimate <= run(s, observations, f).estimate <= value,
        run(s, observations.take(count), f).estimate >= value ==> run(
            s,
            observations.take(count),
            f,
        ).estimate >= run(s, observations, f).estimate >= value,
    decreases observations.len(),
{
    if count == observations.len() {
        assert(observations.take(count) =~= observations);
    } else {
        let shorter = observations.drop_last();
        let previous = run(s, shorter, f);
        assert(shorter.take(count) =~= observations.take(count));
        assert(observations.last() == value);
        lemma_constant_observation_converges(s, shorter, value, count, f);
        lemma_run_keeps_constants(s, shorter, 0, f);
        lemma_estimate_approaches_observation(previous, value, f);
    }
}

/// Over a run, the uncertainty never falls below the process noise once an
/// update has been made, whatever was observed; and without process noise it
/// decays monotonically: it is no larger at the end of the run than at any
/// point before.
pub proof fn lemma_uncertainty_decays(
    s: StateModel,
    observations: Seq<int>,
    count: int,
    f: Format,
)
    requires
        f.valid(),
        s.wf(),
        0 <= count <= observations.len(),
        run_defined(s, observations, f),
    ensures
        observations.len() > 0 ==> run(s, observations, f).uncertainty >= s.process_noise,
        s.process_noise == 0 ==> run(s, observations, f).uncertainty <= run(
            s,
            observations.take(count),
            f,
        ).uncertainty,
    decreases observations.len(),
{
    if observations.len() == 0 {
        assert(observations.take(count) =~= observations);
    } else {
        let shorter = observations.drop_last();
        let previous = run(s, shorter, f);
        lemma_run_keeps_constants(s, shorter, 0, f);
        lemma_uncertainty_bounds(previous, observations.last(), f);
        if count == observations.len() {
            assert(observations.take(count) =~= observations);
        } else {
            assert(shorter.take(count) =~= observations.take(count));
            lemma_uncertainty_decays(s, shorter, count, f);
        }
    }
}

/// The uncertainty after a run depends on how many observations were made,
/// not on what they were.
pub proof fn lemma_uncertainty_ignores_observations(
    s: StateModel,
    first: Seq<int>,
    second: Seq<int>,
    f: Format,
)
    requires
        first.len() == second.len(),
    ensures
        run(s, first, f).uncertainty == run(s, second, f).uncertainty,
        run(s, first, f).measurement_uncertainty == run(s, second, f).measurement_uncertainty,
        run(s, first, f).process_noise == run(s, second, f).process_noise,
    decreases first.len(),
{
    if first.len() > 0 {
        lemma_uncertainty_ignores_observations(s, first.drop_last(), second.drop_last(), f);
    }
}

/// An update with an observation at or above the estimate, and at most
/// `tolerance + limit` above it, leaves the estimate at most `tolerance`
/// below the observation, provided the tolerance is wide enough for a lower
/// bound `least` of the gain.
pub proof fn lemma_lag_is_bounded(
    s: StateModel,
    observation: int,
    least: int,
    limit: int,
    tolerance: int,
    f: Format,
)
    requires
        f.valid(),
        s.wf(),
        s.uncertainty + s.measurement_uncertainty > 0,
        0 <= observation - s.estimate <= tolerance + limit,
        0 <= least <= gain(s, f),
        tolerance * least >= (f.scale - least) * limit + f.scale,
    ensures
        0 <= observation - step(s, observation, f).estimate <= tolerance,
{
    let scale = f.scale;
    let g = gain(s, f);
    let d = observation - s.estimate;
    let moved = correction(s, observation, f);
    lemma_gain_is_share(s, f);
    lemma_estimate_approaches_observation(s, observation, f);
    lemma_floor_brackets(g * d, scale);
    assert(least * d <= g * d) by (nonlinear_arith)
        requires
            least <= g,
            0 <= d,
    ;
    assert((scale - least) * d <= (scale - least) * (tolerance + limit)) by (nonlinear_arith)
        requires
            least <= scale,
            d <= tolerance + limit,
    ;
    assert((d - moved) * scale < tolerance * scale) by (nonlinear_arith)
        requires
            moved * scale + scale > g * d,
            least * d <= g * d,
            (scale - least) * d <= (scale - least) * (tolerance + limit),
            tolerance * least >= (scale - least) * limit + scale,
    ;
    assert(d - moved < tolerance) by (nonlinear_arith)
        requires
            (d - moved) * scale < tolerance * scale,
            scale > 0,
    ;
}

/// A rising sequence of observations is tracked from below: where the
/// observations start at or above the estimate and never rise by more than
/// `limit` at a time, the estimate after the run is at most `tolerance` below
/// the last observation and never above it. The tolerance has to be wide
/// enough for the least gain: `tolerance * g >= (1 - g) * limit + 1` in raw
/// values, which for a gain near one is little more than `(1 - g) * limit`.
pub proof fn lemma_rising_sequence_is_tracked(
    s: StateModel,
    observations: Seq<int>,
    limit: int,
    tolerance: int,
    f: Format,
)
    requires
        f.valid(),
        s.wf(),
        observations.len() > 0,
        run_defined(s, observations, f),
        rising(observations, limit),
        0 <= observations[0] - s.estimate <= tolerance + limit,
        least_uncertainty(s) + s.measurement_uncertainty > 0,
        tolerance * least_gain(s, f) >= (f.scale - least_gain(s, f)) * limit + f.scale,
    ensures
        0 <= observations.last() - run(s, observations, f).estimate <= tolerance,
    decreases observations.len(),
{
    let shorter = observations.drop_last();
    let previous = run(s, shorter, f);
    let lowest = StateModel::of(
        s.estimate,
        least_uncertainty(s),
        s.measurement_uncertainty,
        s.process_noise,
    );
    lemma_run_keeps_constants(s, shorter, 0, f);
    lemma_gain_is_share(lowest, f);
    if shorter.len() == 0 {
        assert(observations.last() == observations[0]);
    } else {
        assert(rising(shorter, limit)) by {
            assert forall|i: int| 0 < i < shorter.len() implies 0 <= #[trigger] shorter[i]
                - shorter[i - 1] <= limit by {
                assert(shorter[i] == observations[i]);
                assert(shorter[i - 1] == observations[i - 1]);
            }
        }
        lemma_rising_sequence_is_tracked(s, shorter, limit, tolerance, f);
        lemma_uncertainty_decays(s, shorter, 0, f);
        let last = observations.len() - 1;
        assert(0 <= observations[last] - observations[last - 1] <= limit);
        assert(shorter.last() == observations[last - 1]);
    }
    lemma_gain_grows_with_uncertainty(lowest, previous, f);
    lemma_lag_is_bounded(previous, observations.last(), least_gain(s, f), limit, tolerance, f);
}

/// The update is a function of the state and the observation alone: two
/// results for the same state and observation are the same state.
pub proof fn lemma_update_is_deterministic<T: FixedPoint>(
    state: KalmanState<T>,
    observation: T,
    first: KalmanState<T>,
    second: KalmanState<T>,
)
    requires
        first@ == step(state@, observation@, T::format()),
        second@ == step(state@, observation@, T::format()),
    ensures
        first == second,
{
    first.estimate.lemma_raw_determines(second.estimate);
    first.uncertainty.lemma_raw_determines(second.uncertainty);
    first.measurement_uncertainty.lemma_raw_determines(second.measurement_uncertainty);
    first.process_noise.lemma_raw_determines(second.process_noise);
}

} // verus!
