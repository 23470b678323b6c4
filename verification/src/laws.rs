use crate::pid::{initial, PidModel, PID};
use crate::scalar::{
    is_zero, lemma_clamp_cases, lemma_clamp_unbounded, lemma_clamp_within,
    lemma_within_is_between, within, Scalar,
};
use vstd::prelude::*;
use vstd::std_specs::cmp::{PartialEqSpec, PartialOrdIs, PartialOrdSpec};
use vstd::std_specs::ops::{AddSpec, MulSpec, SubSpec};

verus! {

/// The state after feeding `measurements` to `c` one by one, and the outputs
/// in the order in which they were returned.
pub open spec fn run<T: Scalar>(c: PidModel<T>, measurements: Seq<T>) -> (PidModel<T>, Seq<T>)
    decreases measurements.len(),
{
    if measurements.len() == 0 {
        (c, Seq::empty())
    } else {
        let (before, outputs) = run(c, measurements.drop_last());
        (before.next(measurements.last()), outputs.push(before.output(measurements.last())))
    }
}

/// Both clamps are at their defaults, the infinities.
pub open spec fn unbounded<T: Scalar>(c: PidModel<T>) -> bool {
    &&& c.imin == T::neg_infinity_spec()
    &&& c.imax == T::infinity_spec()
    &&& c.omin == T::neg_infinity_spec()
    &&& c.omax == T::infinity_spec()
}

/// A step exactly on target changes nothing that was at rest: with finite
/// gains, a zero previous error, a zero integral and default bounds, a
/// measurement equal to the setpoint leaves the integral at zero. The
/// proportional term is zero too, so the output is zero whenever the
/// derivative term of the step is.
pub proof fn lemma_step_on_target<T: Scalar>(c: PidModel<T>, measurement: T)
    requires
        measurement == c.setpoint,
        measurement.is_finite_spec(),
        c.p.is_finite_spec(),
        c.i.is_finite_spec(),
        is_zero(c.error),
        is_zero(c.integral),
        unbounded(c),
    ensures
        is_zero(c.next(measurement).integral),
        is_zero(c.next_derivative(measurement)) ==> is_zero(c.output(measurement)),
{
    let error = c.error_at(measurement);
    T::lemma_sub_self(measurement);
    T::lemma_mul_zero(c.p, error);
    T::lemma_add_zeros(error, c.error);
    T::lemma_mul_zero(c.i, error.add_spec(c.error));
    T::lemma_add_zeros(c.i.mul_spec(error.add_spec(c.error)), c.integral);
    lemma_clamp_unbounded(c.integral_raw(measurement));
    lemma_clamp_unbounded(c.output_raw(measurement));
    if is_zero(c.next_derivative(measurement)) {
        T::lemma_add_zeros(c.proportional(measurement), c.next_integral(measurement));
        T::lemma_add_zeros(
            c.proportional(measurement).add_spec(c.next_integral(measurement)),
            c.next_derivative(measurement),
        );
    }
}

/// The same for a controller that was just constructed: its first step, on a
/// measurement equal to the setpoint, leaves the integral at zero, and returns
/// zero whenever the derivative term of that step is zero.
pub proof fn lemma_first_step_on_target<T: Scalar>(
    kp: T,
    ki: T,
    kd: T,
    tau: T,
    sampling_time: T,
    setpoint: T,
)
    requires
        setpoint.is_finite_spec(),
        kp.is_finite_spec(),
        initial(kp, ki, kd, tau, sampling_time, setpoint).i.is_finite_spec(),
    ensures
        ({
            let c = initial(kp, ki, kd, tau, sampling_time, setpoint);
            &&& is_zero(c.next(setpoint).integral)
            &&& is_zero(c.next_derivative(setpoint)) ==> is_zero(c.output(setpoint))
        }),
{
    T::lemma_zero();
    lemma_step_on_target(initial(kp, ki, kd, tau, sampling_time, setpoint), setpoint);
}

/// No derivative kick: the derivative term is taken on the measurement, so it
/// is the same whatever the setpoint and the previous error are. With a
/// measurement that has not moved since the previous sample, finite
/// derivative coefficients and a zero derivative state, that state stays zero
/// however far the setpoint has been moved.
pub proof fn lemma_no_derivative_kick<T: Scalar>(
    c: PidModel<T>,
    setpoint: T,
    error: T,
    measurement: T,
)
    ensures
        (PidModel { setpoint, error, ..c }).next(measurement).derivative == c.next(
            measurement,
        ).derivative,
        measurement == c.measurement && measurement.is_finite_spec() && c.d.is_finite_spec()
            && c.t.is_finite_spec() && is_zero(c.derivative) ==> is_zero(
            (PidModel { setpoint, error, ..c }).next(measurement).derivative,
        ),
{
    if measurement == c.measurement && measurement.is_finite_spec() && c.d.is_finite_spec()
        && c.t.is_finite_spec() && is_zero(c.derivative) {
        T::lemma_sub_self(measurement);
        T::lemma_mul_zero(c.d, measurement.sub_spec(c.measurement));
        T::lemma_mul_zero(c.t, c.derivative);
        T::lemma_add_zeros(
            c.d.mul_spec(measurement.sub_spec(c.measurement)),
            c.t.mul_spec(c.derivative),
        );
    }
}

/// Anti-windup: between ordered bounds, an accumulation that would exceed a
/// bound leaves the integral at exactly that bound, and one that lies within
/// the bounds is stored as it is. The output is cut in the same way.
pub proof fn lemma_saturation<T: Scalar>(c: PidModel<T>, measurement: T)
    requires
        c.bounds_ordered(),
    ensures
        c.integral_raw(measurement).is_gt(&c.imax) ==> c.next(measurement).integral == c.imax,
        c.integral_raw(measurement).is_lt(&c.imin) ==> c.next(measurement).integral == c.imin,
        within(c.integral_raw(measurement), c.imin, c.imax) ==> c.next(measurement).integral
            == c.integral_raw(measurement),
        c.output_raw(measurement).is_gt(&c.omax) ==> c.output(measurement) == c.omax,
        c.output_raw(measurement).is_lt(&c.omin) ==> c.output(measurement) == c.omin,
        within(c.output_raw(measurement), c.omin, c.omax) ==> c.output(measurement)
            == c.output_raw(measurement),
{
    lemma_clamp_cases(c.integral_raw(measurement), c.imin, c.imax);
    lemma_clamp_cases(c.output_raw(measurement), c.omin, c.omax);
}

/// After a sample the integral lies between the integral bounds and the
/// output between the output bounds, as far as they compare with them at all:
/// only a NaN, which compares with nothing, escapes.
pub proof fn lemma_step_is_between_bounds<T: Scalar>(c: PidModel<T>, measurement: T)
    requires
        c.bounds_ordered(),
    ensures
        ({
            let integral = c.next(measurement).integral;
            integral.partial_cmp_spec(&c.imin).is_some() && integral.partial_cmp_spec(
                &c.imax,
            ).is_some() ==> c.imin.is_le(&integral) && integral.is_le(&c.imax)
        }),
        ({
            let output = c.output(measurement);
            output.partial_cmp_spec(&c.omin).is_some() && output.partial_cmp_spec(
                &c.omax,
            ).is_some() ==> c.omin.is_le(&output) && output.is_le(&c.omax)
        }),
{
    let integral = c.next(measurement).integral;
    let output = c.output(measurement);
    lemma_clamp_within(c.integral_raw(measurement), c.imin, c.imax);
    lemma_clamp_within(c.output_raw(measurement), c.omin, c.omax);
    if integral.partial_cmp_spec(&c.imin).is_some() && integral.partial_cmp_spec(
        &c.imax,
    ).is_some() {
        lemma_within_is_between(integral, c.imin, c.imax);
    }
    if output.partial_cmp_spec(&c.omin).is_some() && output.partial_cmp_spec(&c.omax).is_some() {
        lemma_within_is_between(output, c.omin, c.omax);
    }
}

/// However many samples a controller with ordered bounds is fed, its gains
/// and bounds stay what they were, its integral ends within the integral
/// bounds, and every output it returned lies within the output bounds.
pub proof fn lemma_run_stays_within_bounds<T: Scalar>(c: PidModel<T>, measurements: Seq<T>)
    requires
        c.bounds_ordered(),
    ensures
        run(c, measurements).0.same_tuning(c),
        run(c, measurements).1.len() == measurements.len(),
        measurements.len() > 0 ==> within(run(c, measurements).0.integral, c.imin, c.imax),
        forall|k: int|
            0 <= k < measurements.len() ==> within(
                #[trigger] run(c, measurements).1[k],
                c.omin,
                c.omax,
            ),
    decreases measurements.len(),
{
    if measurements.len() > 0 {
        lemma_run_stays_within_bounds(c, measurements.drop_last());
        let before = run(c, measurements.drop_last()).0;
        lemma_clamp_within(before.integral_raw(measurements.last()), before.imin, before.imax);
        lemma_clamp_within(before.output_raw(measurements.last()), before.omin, before.omax);
    }
}

/// The output clamp is independent of the recurrence: whatever the output
/// bounds are, a sample leaves the same error, integral, derivative and
/// measurement behind. In particular it does nothing against integral windup.
pub proof fn lemma_output_bounds_leave_state_alone<T: Scalar>(
    c: PidModel<T>,
    omin: T,
    omax: T,
    measurement: T,
)
    ensures
        (PidModel { omin, omax, ..c }).next(measurement) == (PidModel {
            omin,
            omax,
            ..c.next(measurement)
        }),
{
}

/// Determinism: two controllers constructed from the same arguments and fed
/// the same measurements return the same outputs and end in the same state.
pub proof fn lemma_deterministic<T: Scalar>(
    a: PID<T>,
    b: PID<T>,
    kp: T,
    ki: T,
    kd: T,
    tau: T,
    sampling_time: T,
    setpoint: T,
    measurements: Seq<T>,
)
    requires
        a@ == initial(kp, ki, kd, tau, sampling_time, setpoint),
        b@ == initial(kp, ki, kd, tau, sampling_time, setpoint),
    ensures
        run(a@, measurements) == run(b@, measurements),
{
}

} // verus!
