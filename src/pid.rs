//! PID temperature controller over exact fixed-point integers.
//!
//! Temperatures are in thousandths of a degree Celsius; gains and the
//! derivative filter coefficient are in thousandths. Internally the control
//! output is kept in millionths of a percent, so that a gain of `1000`
//! (one percent per degree) applied to an error of `1000` (one degree) gives
//! exactly one percent. One call of `update` is one time step.
use vstd::prelude::*;

verus! {

/// Output units per percent of duty cycle.
pub const OUTPUT_SCALE: i128 = 1_000_000;

/// Upper bound of the control output, in output units (100 percent).
pub const OUTPUT_MAX: i128 = 100_000_000;

/// Fixed-point one for gains and the filter coefficient.
pub const FIXED_ONE: u32 = 1000;

/// Bound on the stored integral term that the anti-windup rule maintains.
pub const INTEGRAL_BOUND: i128 = 0x4_0000_0000_0000_0000;

/// Bound on the filtered derivative, in thousandths of a degree per step.
pub const DERIVATIVE_BOUND: i128 = 0x1_0000_0000;

/// Clamps a control output into `[0, OUTPUT_MAX]`.
pub open spec fn clamp_output(u: int) -> int {
    if u < 0 {
        0
    } else if u > OUTPUT_MAX {
        OUTPUT_MAX as int
    } else {
        u
    }
}

/// Change of the measurement since the previous step; zero without history.
pub open spec fn raw_derivative(previous: Option<i32>, measurement: i32) -> int {
    match previous {
        Some(p) => measurement - p,
        None => 0,
    }
}

/// Low-pass filtered derivative: `alpha * raw + (1 - alpha) * previous`,
/// rounded down.
pub open spec fn filtered(alpha: int, raw: int, previous: int) -> int {
    (alpha * raw + (FIXED_ONE - alpha) * previous) / (FIXED_ONE as int)
}

/// Stateful PID control law with conditional integration (anti-windup) and
/// a filtered derivative on the measurement.
#[derive(Clone, Copy, Debug)]
pub struct PidController {
    /// Proportional gain, in thousandths of a percent per degree.
    pub kp: u32,
    /// Integral gain, in thousandths of a percent per degree and step.
    pub ki: u32,
    /// Derivative gain, in thousandths of a percent per degree per step.
    pub kd: u32,
    /// Derivative filter coefficient, in thousandths (`1000`: no filtering).
    pub alpha: u32,
    /// Accumulated integral term, in output units.
    pub integral: i128,
    /// Measurement of the previous step, if any since the last reset.
    pub previous_measurement: Option<i32>,
    /// Filtered derivative of the measurement, thousandths of a degree per step.
    pub filtered_derivative: i128,
}

impl PidController {
    pub open spec fn wf(&self) -> bool {
        &&& self.alpha <= FIXED_ONE
        &&& -INTEGRAL_BOUND <= self.integral <= INTEGRAL_BOUND
        &&& -DERIVATIVE_BOUND <= self.filtered_derivative <= DERIVATIVE_BOUND
    }

    /// A controller with the given gains, no history and no filtering.
    pub open spec fn fresh(kp: u32, ki: u32, kd: u32) -> PidController {
        PidController {
            kp,
            ki,
            kd,
            alpha: FIXED_ONE,
            integral: 0,
            previous_measurement: None,
            filtered_derivative: 0,
        }
    }

    /// `setpoint - measurement`.
    pub open spec fn error(setpoint: i32, measurement: i32) -> int {
        setpoint - measurement
    }

    /// Filtered derivative after a step with `measurement`.
    pub open spec fn next_derivative(&self, measurement: i32) -> int {
        filtered(
            self.alpha as int,
            raw_derivative(self.previous_measurement, measurement),
            self.filtered_derivative as int,
        )
    }

    /// Proportional plus derivative contribution of a step.
    pub open spec fn pd_term(&self, setpoint: i32, measurement: i32) -> int {
        self.kp * Self::error(setpoint, measurement) - self.kd * self.next_derivative(measurement)
    }

    /// Integral term if this step's error is accumulated.
    pub open spec fn tentative_integral(&self, setpoint: i32, measurement: i32) -> int {
        self.integral + self.ki * Self::error(setpoint, measurement)
    }

    /// Whether accumulating this step's error is rejected: the tentative
    /// output saturates and the error pushes further into that saturation.
    pub open spec fn integration_rejected(&self, setpoint: i32, measurement: i32) -> bool {
        let e = Self::error(setpoint, measurement);
        let u = self.pd_term(setpoint, measurement) + self.tentative_integral(setpoint, measurement);
        (u > OUTPUT_MAX && e > 0) || (u < 0 && e < 0)
    }

    /// Integral term after a step.
    pub open spec fn next_integral(&self, setpoint: i32, measurement: i32) -> int {
        if self.integration_rejected(setpoint, measurement) {
            self.integral as int
        } else {
            self.tentative_integral(setpoint, measurement)
        }
    }

    /// Clamped control output of a step, in output units.
    pub open spec fn control_output(&self, setpoint: i32, measurement: i32) -> int {
        clamp_output(self.pd_term(setpoint, measurement) + self.next_integral(setpoint, measurement))
    }

    /// Duty cycle in whole percent returned by a step (rounded down).
    pub open spec fn duty(&self, setpoint: i32, measurement: i32) -> int {
        self.control_output(setpoint, measurement) / (OUTPUT_SCALE as int)
    }

    /// Controller state after a step.
    pub open spec fn after_update(&self, setpoint: i32, measurement: i32) -> PidController {
        PidController {
            integral: self.next_integral(setpoint, measurement) as i128,
            previous_measurement: Some(measurement),
            filtered_derivative: self.next_derivative(measurement) as i128,
            ..*self
        }
    }

    /// Controller state after a reset: gains kept, integral and history cleared.
    pub open spec fn after_reset(&self) -> PidController {
        PidController { integral: 0, previous_measurement: None, filtered_derivative: 0, ..*self }
    }

    /// Creates a controller with gains `kp`, `ki`, `kd` (thousandths) and
    /// no derivative filtering.
    pub fn new(kp: u32, ki: u32, kd: u32) -> (r: Self)
        ensures
            r == Self::fresh(kp, ki, kd),
            r.wf(),
    {
        PidController {
            kp,
            ki,
            kd,
            alpha: FIXED_ONE,
            integral: 0,
            previous_measurement: None,
            filtered_derivative: 0,
        }
    }

    /// Sets the derivative filter coefficient `alpha` (thousandths, at most
    /// `1000`).
    pub fn with_derivative_filter(self, alpha: u32) -> (r: Self)
        requires
            self.wf(),
            alpha <= FIXED_ONE,
        ensures
            r == (PidController { alpha, ..self }),
            r.wf(),
    {
        PidController { alpha, ..self }
    }

    /// Runs one control step and returns the duty cycle in percent.
    pub fn update(&mut self, setpoint: i32, measurement: i32) -> (r: u8)
        requires
            old(self).wf(),
        ensures
            final(self).wf(),
            *final(self) == old(self).after_update(setpoint, measurement),
            r as int == old(self).duty(setpoint, measurement),
            r <= 100,
    {
        let ghost s = *self;
        let error: i128 = setpoint as i128 - measurement as i128;
        let raw: i128 = match self.previous_measurement {
            Some(p) => measurement as i128 - p as i128,
            None => 0,
        };
        proof {
            lemma_filter_bound(self.alpha as int, raw as int, self.filtered_derivative as int);
            lemma_product_bound(self.alpha as int, raw as int);
            lemma_product_bound((FIXED_ONE - self.alpha) as int, self.filtered_derivative as int);
        }
        let weighted: i128 = self.alpha as i128 * raw + (FIXED_ONE - self.alpha) as i128
            * self.filtered_derivative;
        let derivative: i128 = floor_div_fixed(weighted);
        proof {
            lemma_product_bound(self.kp as int, error as int);
            lemma_product_bound(self.ki as int, error as int);
            lemma_product_bound(self.kd as int, derivative as int);
        }
        let pd: i128 = self.kp as i128 * error - self.kd as i128 * derivative;
        let tentative: i128 = self.integral + self.ki as i128 * error;
        let u: i128 = pd + tentative;
        let rejected = (u > OUTPUT_MAX && error > 0) || (u < 0 && error < 0);
        proof {
            if !rejected {
                assert(-INTEGRAL_BOUND <= tentative <= INTEGRAL_BOUND) by (nonlinear_arith)
                    requires
                        tentative == s.integral + s.ki * error,
                        -INTEGRAL_BOUND <= s.integral <= INTEGRAL_BOUND,
                        0 <= s.ki,
                        u == pd + tentative,
                        -0x2_0000_0000_0000_0000 <= pd <= 0x2_0000_0000_0000_0000,
                        !((u > OUTPUT_MAX && error > 0) || (u < 0 && error < 0)),
                ;
            }
        }
        let integral: i128 = if rejected {
            self.integral
        } else {
            tentative
        };
        let total: i128 = pd + integral;
        let clamped: i128 = if total < 0 {
            0
        } else if total > OUTPUT_MAX {
            OUTPUT_MAX
        } else {
            total
        };
        self.integral = integral;
        self.previous_measurement = Some(measurement);
        self.filtered_derivative = derivative;
        (clamped / OUTPUT_SCALE) as u8
    }

    /// Clears the integral term and the measurement history; gains are kept.
    pub fn reset_integral(&mut self)
        requires
            old(self).wf(),
        ensures
            final(self).wf(),
            *final(self) == old(self).after_reset(),
    {
        self.integral = 0;
        self.previous_measurement = None;
        self.filtered_derivative = 0;
    }

    /// Replaces the gains; clears the integral term when `reset_integral`.
    pub fn update_parameters(&mut self, kp: u32, ki: u32, kd: u32, reset_integral: bool)
        requires
            old(self).wf(),
        ensures
            final(self).wf(),
            *final(self) == (PidController {
                kp,
                ki,
                kd,
                integral: if reset_integral {
                    0
                } else {
                    old(self).integral
                },
                ..*old(self)
            }),
    {
        self.kp = kp;
        self.ki = ki;
        self.kd = kd;
        if reset_integral {
            self.integral = 0;
        }
    }

    /// The gains `(kp, ki, kd)`, in thousandths.
    pub fn get_parameters(&self) -> (r: (u32, u32, u32))
        ensures
            r == (self.kp, self.ki, self.kd),
    {
        (self.kp, self.ki, self.kd)
    }
}

/// `x / 1000`, rounded down.
fn floor_div_fixed(x: i128) -> (r: i128)
    requires
        -0x1000_0000_0000_0000_0000 <= x <= 0x1000_0000_0000_0000_0000,
    ensures
        r == (x as int) / (FIXED_ONE as int),
{
    if x >= 0 {
        (x as u128 / 1000) as i128
    } else {
        let q: u128 = ((-x) as u128 + 999) / 1000;
        proof {
            let n = -x;
            assert((n + 999) / 1000 * 1000 >= n) by (nonlinear_arith)
                requires
                    n > 0,
            ;
            assert(((n + 999) / 1000 - 1) * 1000 < n) by (nonlinear_arith)
                requires
                    n > 0,
            ;
            assert(x / 1000 == -((n + 999) / 1000)) by (nonlinear_arith)
                requires
                    n > 0,
                    x == -n,
                    (n + 999) / 1000 * 1000 >= n,
                    ((n + 999) / 1000 - 1) * 1000 < n,
            ;
        }
        -(q as i128)
    }
}

/// Bounds a gain times a value of at most `2^32` in magnitude.
proof fn lemma_product_bound(gain: int, v: int)
    requires
        0 <= gain < 0x1_0000_0000,
        -0x1_0000_0000 <= v <= 0x1_0000_0000,
    ensures
        -0x1_0000_0000_0000_0000 <= gain * v <= 0x1_0000_0000_0000_0000,
{
    assert(-0x1_0000_0000_0000_0000 <= gain * v <= 0x1_0000_0000_0000_0000) by (nonlinear_arith)
        requires
            0 <= gain < 0x1_0000_0000,
            -0x1_0000_0000 <= v <= 0x1_0000_0000,
    ;
}

/// The filtered derivative stays within `DERIVATIVE_BOUND`.
proof fn lemma_filter_bound(alpha: int, raw: int, previous: int)
    requires
        0 <= alpha <= 1000,
        -0x1_0000_0000 <= raw <= 0x1_0000_0000,
        -0x1_0000_0000 <= previous <= 0x1_0000_0000,
    ensures
        -0x1_0000_0000 * 1000 <= alpha * raw + (1000 - alpha) * previous <= 0x1_0000_0000 * 1000,
        -0x1_0000_0000 <= filtered(alpha, raw, previous) <= 0x1_0000_0000,
{
    assert(-0x1_0000_0000 * 1000 <= alpha * raw + (1000 - alpha) * previous <= 0x1_0000_0000
        * 1000) by (nonlinear_arith)
        requires
            0 <= alpha <= 1000,
            -0x1_0000_0000 <= raw <= 0x1_0000_0000,
            -0x1_0000_0000 <= previous <= 0x1_0000_0000,
    ;
}

/// After a reset, a controller answers its next step exactly as a freshly
/// constructed controller with the same gains answers its first step.
pub proof fn lemma_reset_matches_fresh(c: PidController, setpoint: i32, measurement: i32)
    requires
        c.wf(),
    ensures
        c.after_reset().duty(setpoint, measurement) == PidController::fresh(
            c.kp,
            c.ki,
            c.kd,
        ).duty(setpoint, measurement),
        c.after_reset().after_update(setpoint, measurement).integral == PidController::fresh(
            c.kp,
            c.ki,
            c.kd,
        ).after_update(setpoint, measurement).integral,
{
    let r = c.after_reset();
    let f = PidController::fresh(c.kp, c.ki, c.kd);
    assert(r.next_derivative(measurement) == 0) by (nonlinear_arith)
        requires
            r.next_derivative(measurement) == (r.alpha * 0 + (1000 - r.alpha) * 0) / 1000,
    ;
    assert(f.next_derivative(measurement) == 0);
}

} // verus!
