use crate::scalar::{clamp_spec, lemma_clamp_within, within, Scalar};
use core::ops::Neg;
use vstd::prelude::*;
use vstd::std_specs::cmp::PartialOrdIs;
use vstd::std_specs::ops::{AddSpec, DivSpec, MulSpec, NegSpec, SubSpec};

verus! {

/// Why a pair of bounds was turned down.
#[derive(Clone, Copy, Debug, PartialEq, Eq)]
pub enum BoundsError {
    /// `min <= max` does not hold: the bounds are inverted, or one is NaN.
    Unordered,
}

/// The mathematical content of a controller: every coefficient and every
/// piece of recurrence state, as plain values.
pub struct PidModel<T> {
    /// Target value of the process variable.
    pub setpoint: T,
    /// Error of the previous sample.
    pub error: T,
    /// Clamped integral accumulator.
    pub integral: T,
    /// Filtered derivative accumulator.
    pub derivative: T,
    /// Measurement of the previous sample.
    pub measurement: T,
    /// Proportional gain.
    pub p: T,
    /// Integral gain, premultiplied by half the sampling period.
    pub i: T,
    /// Derivative gain, premultiplied by minus two.
    pub d: T,
    /// Coefficient of the derivative low-pass filter.
    pub t: T,
    /// Lower bound of the integral accumulator.
    pub imin: T,
    /// Upper bound of the integral accumulator.
    pub imax: T,
    /// Lower bound of the output.
    pub omin: T,
    /// Upper bound of the output.
    pub omax: T,
}

/// The integral gain as stored: `1/2 * ki * sampling_time`.
pub open spec fn integral_gain<T: Scalar>(ki: T, sampling_time: T) -> T {
    T::half_spec().mul_spec(ki).mul_spec(sampling_time)
}

/// The derivative gain as stored: `-2 * kd`.
pub open spec fn derivative_gain<T: Scalar>(kd: T) -> T {
    T::two_spec().neg_spec().mul_spec(kd)
}

/// The low-pass coefficient: `(2 * tau - sampling_time) / (2 * tau + sampling_time)`.
pub open spec fn filter_coefficient<T: Scalar>(tau: T, sampling_time: T) -> T {
    T::two_spec().mul_spec(tau).sub_spec(sampling_time).div_spec(
        T::two_spec().mul_spec(tau).add_spec(sampling_time),
    )
}

/// A freshly constructed controller: derived gains, zeroed recurrence state,
/// and bounds at the infinities.
pub open spec fn initial<T: Scalar>(
    kp: T,
    ki: T,
    kd: T,
    tau: T,
    sampling_time: T,
    setpoint: T,
) -> PidModel<T> {
    PidModel {
        setpoint,
        error: T::zero_spec(),
        integral: T::zero_spec(),
        derivative: T::zero_spec(),
        measurement: T::zero_spec(),
        p: kp,
        i: integral_gain(ki, sampling_time),
        d: derivative_gain(kd),
        t: filter_coefficient(tau, sampling_time),
        imin: T::neg_infinity_spec(),
        imax: T::infinity_spec(),
        omin: T::neg_infinity_spec(),
        omax: T::infinity_spec(),
    }
}

impl<T: Scalar> PidModel<T> {
    /// Both pairs of bounds are ordered.
    pub open spec fn bounds_ordered(self) -> bool {
        self.imin.is_le(&self.imax) && self.omin.is_le(&self.omax)
    }

    /// Gains and bounds are those of `other`.
    pub open spec fn same_tuning(self, other: Self) -> bool {
        &&& self.p == other.p
        &&& self.i == other.i
        &&& self.d == other.d
        &&& self.t == other.t
        &&& self.imin == other.imin
        &&& self.imax == other.imax
        &&& self.omin == other.omin
        &&& self.omax == other.omax
    }

    /// `setpoint - measurement`.
    pub open spec fn error_at(self, measurement: T) -> T {
        self.setpoint.sub_spec(measurement)
    }

    /// The proportional term.
    pub open spec fn proportional(self, measurement: T) -> T {
        self.p.mul_spec(self.error_at(measurement))
    }

    /// The trapezoidal integral before it is clamped.
    pub open spec fn integral_raw(self, measurement: T) -> T {
        self.i.mul_spec(self.error_at(measurement).add_spec(self.error)).add_spec(self.integral)
    }

    /// The integral accumulator after the sample.
    pub open spec fn next_integral(self, measurement: T) -> T {
        clamp_spec(self.integral_raw(measurement), self.imin, self.imax)
    }

    /// The derivative accumulator after the sample. It is taken on the
    /// measurement, so neither the setpoint nor the error enters it.
    pub open spec fn next_derivative(self, measurement: T) -> T {
        self.d.mul_spec(measurement.sub_spec(self.measurement)).add_spec(
            self.t.mul_spec(self.derivative),
        )
    }

    /// The sum of the three terms before it is clamped.
    pub open spec fn output_raw(self, measurement: T) -> T {
        self.proportional(measurement).add_spec(self.next_integral(measurement)).add_spec(
            self.next_derivative(measurement),
        )
    }

    /// The control output for the sample.
    pub open spec fn output(self, measurement: T) -> T {
        clamp_spec(self.output_raw(measurement), self.omin, self.omax)
    }

    /// The controller after the sample.
    pub open spec fn next(self, measurement: T) -> Self {
        PidModel {
            error: self.error_at(measurement),
            integral: self.next_integral(measurement),
            derivative: self.next_derivative(measurement),
            measurement,
            ..self
        }
    }
}

/// A discrete-time PID controller with a filtered derivative on the
/// measurement and separate clamps on the integral accumulator and the output.
pub struct PID<T: Scalar> {
    /// Desired setpoint.
    pub setpoint: T,
    error: T,
    integral: T,
    derivative: T,
    measurement: T,
    p: T,
    i: T,
    d: T,
    t: T,
    imin: T,
    imax: T,
    omin: T,
    omax: T,
}

impl<T: Scalar> View for PID<T> {
    type V = PidModel<T>;

    closed spec fn view(&self) -> PidModel<T> {
        PidModel {
            setpoint: self.setpoint,
            error: self.error,
            integral: self.integral,
            derivative: self.derivative,
            measurement: self.measurement,
            p: self.p,
            i: self.i,
            d: self.d,
            t: self.t,
            imin: self.imin,
            imax: self.imax,
            omin: self.omin,
            omax: self.omax,
        }
    }
}

impl<T: Scalar> PID<T> {
    /// Holds of every controller at all times: `use_type_invariant` yields it.
    #[verifier::type_invariant]
    pub open spec fn bounds_ordered(self) -> bool {
        self@.bounds_ordered()
    }

    /// Creates a controller with proportional gain `kp`, integral gain `ki`
    /// and derivative gain `kd`, a derivative low-pass filter of time constant
    /// `tau`, and `sampling_time` between two consecutive steps.
    ///
    /// A meaningful configuration has `sampling_time > 0` and
    /// `2 * tau + sampling_time != 0`. Neither is checked and nothing is
    /// rejected: a degenerate configuration yields whatever the scalar's
    /// operators yield for it, for floating point an infinite or NaN
    /// coefficient that spreads into every later output.
    pub fn new(kp: T, ki: T, kd: T, tau: T, sampling_time: T, setpoint: T) -> (r: Self)
        ensures
            r@ == initial(kp, ki, kd, tau, sampling_time, setpoint),
            r@.bounds_ordered(),
    {
        proof {
            T::lemma_operators_are_total();
            T::lemma_infinities_enclose(T::zero_spec());
        }
        let two = T::two();
        let half = T::half();
        PID {
            setpoint,
            error: T::zero(),
            integral: T::zero(),
            derivative: T::zero(),
            measurement: T::zero(),
            p: kp,
            i: half * ki * sampling_time,
            d: two.neg() * kd,
            t: (two * tau - sampling_time) / (two * tau + sampling_time),
            imin: T::neg_infinity(),
            imax: T::infinity(),
            omin: T::neg_infinity(),
            omax: T::infinity(),
        }
    }

    /// Moves the setpoint; the recurrence state is left as it is.
    pub fn set_setpoint(&mut self, setpoint: T)
        ensures
            final(self)@ == (PidModel { setpoint, ..old(self)@ }),
    {
        proof {
            use_type_invariant(&*self);
        }
        *self = PID { setpoint, ..*self };
    }

    /// Restricts the integral accumulator to `[min, max]`, from the next step
    /// on. Bounds for which `min <= max` does not hold are turned down and
    /// leave the controller as it was.
    pub fn bound_integral(&mut self, min: T, max: T) -> (r: Result<&mut Self, BoundsError>)
        ensures
            min.is_le(&max) ==> r is Ok && r->Ok_0@ == (PidModel {
                imin: min,
                imax: max,
                ..old(self)@
            }) && *final(self) == *final(r->Ok_0),
            !min.is_le(&max) ==> r == Err::<&mut Self, BoundsError>(BoundsError::Unordered)
                && *final(self) == *old(self),
    {
        proof {
            T::lemma_operators_are_total();
            use_type_invariant(&*self);
        }
        if min <= max {
            *self = PID { imin: min, imax: max, ..*self };
            Ok(self)
        } else {
            Err(BoundsError::Unordered)
        }
    }

    /// Restricts the output to `[min, max]`, from the next step on. Bounds for
    /// which `min <= max` does not hold are turned down and leave the
    /// controller as it was.
    pub fn bound_output(&mut self, min: T, max: T) -> (r: Result<&mut Self, BoundsError>)
        ensures
            min.is_le(&max) ==> r is Ok && r->Ok_0@ == (PidModel {
                omin: min,
                omax: max,
                ..old(self)@
            }) && *final(self) == *final(r->Ok_0),
            !min.is_le(&max) ==> r == Err::<&mut Self, BoundsError>(BoundsError::Unordered)
                && *final(self) == *old(self),
    {
        proof {
            T::lemma_operators_are_total();
            use_type_invariant(&*self);
        }
        if min <= max {
            *self = PID { omin: min, omax: max, ..*self };
            Ok(self)
        } else {
            Err(BoundsError::Unordered)
        }
    }

    /// Performs a single step of the control loop on a fresh `measurement`
    /// and returns the control output. It is meant to be called once every
    /// sampling period, in the order in which the measurements were taken.
    ///
    /// The integral accumulator is clamped as it is stored, the output as it
    /// is returned. Both clamps let pass what compares neither below nor above
    /// their bounds, so a NaN measurement yields a NaN output.
    pub fn step(&mut self, measurement: T) -> (output: T)
        ensures
            final(self)@ == old(self)@.next(measurement),
            output == old(self)@.output(measurement),
            final(self)@.same_tuning(old(self)@),
            final(self)@.bounds_ordered(),
            within(final(self)@.integral, final(self)@.imin, final(self)@.imax),
            within(output, final(self)@.omin, final(self)@.omax),
    {
        proof {
            T::lemma_operators_are_total();
            use_type_invariant(&*self);
            lemma_clamp_within(self@.integral_raw(measurement), self.imin, self.imax);
            lemma_clamp_within(self@.output_raw(measurement), self.omin, self.omax);
        }
        let error = self.setpoint - measurement;
        let proportional = self.p * error;
        let integral = num_traits::clamp(
            self.i * (error + self.error) + self.integral,
            self.imin,
            self.imax,
        );
        let derivative = self.d * (measurement - self.measurement) + self.t * self.derivative;
        let output = proportional + integral + derivative;
        *self = PID { error, integral, derivative, measurement, ..*self };
        num_traits::clamp(output, self.omin, self.omax)
    }

    /// The same as [`PID::step`].
    pub fn update(&mut self, measurement: T) -> (output: T)
        ensures
            final(self)@ == old(self)@.next(measurement),
            output == old(self)@.output(measurement),
            final(self)@.same_tuning(old(self)@),
            final(self)@.bounds_ordered(),
            within(final(self)@.integral, final(self)@.imin, final(self)@.imax),
            within(output, final(self)@.omin, final(self)@.omax),
    {
        self.step(measurement)
    }
}

} // verus!
