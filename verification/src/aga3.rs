//! AGA-3 orifice-metering equations over micro-unit fixed-point integers.
//!
//! Every physical quantity is carried as an integer number of millionths of
//! its engineering unit (psi, degrees Fahrenheit, inches of water column,
//! inches, or a dimensionless ratio).  Each method computes exactly the
//! truncated integer arithmetic stated by its specification function, so a
//! result is pinned bit for bit by the inputs; domain faults (beta outside
//! its range, a vanishing density ratio, an out-of-range expansibility) are
//! rejected or reported instead of propagating garbage.

use vstd::arithmetic::div_mod::{
    lemma_basic_div, lemma_div_by_self, lemma_div_is_ordered,
    lemma_div_is_ordered_by_denominator, lemma_div_multiples_vanish, lemma_div_nonincreasing,
    lemma_div_of0, lemma_div_pos_is_pos, lemma_fundamental_div_mod_converse,
    lemma_multiply_divide_le, lemma_multiply_divide_lt,
};
use vstd::arithmetic::mul::{
    lemma_mul_by_zero_is_zero, lemma_mul_inequality, lemma_mul_is_associative,
    lemma_mul_is_commutative, lemma_mul_nonnegative, lemma_mul_strict_inequality,
    lemma_mul_strictly_positive, lemma_mul_upper_bound,
};
use vstd::prelude::*;

verus! {

/// Millionths per engineering unit: the fixed-point scale of the crate.
pub const SCALE: u64 = 1_000_000;

/// `SCALE * SCALE`, kept as its own constant for squared-scale divisions.
pub const SCALE_SQ: u64 = 1_000_000_000_000;

/// Orifice-flow constant tying inches of water column to the pressure
/// ratio (27.7070, micro-scaled).
pub const N3: u64 = 27_707_000;

/// Orifice-discharge flow constant for the inch/psi unit system
/// (323.279, micro-scaled).
pub const NC: u64 = 323_279_000;

/// Molar mass of air (28.9625, micro-scaled).
pub const MR_AIR: u64 = 28_962_500;

/// Universal gas constant in the unit system in use (10.7316, micro-scaled).
pub const R_GAS: u64 = 10_731_600;

/// Offset from degrees Fahrenheit to degrees Rankine (459.67, micro-scaled).
pub const N5: u64 = 459_670_000;

/// Base (standard) pressure, psi absolute (14.73, micro-scaled).
pub const BASE_P: u64 = 14_730_000;

/// Base (standard) temperature, degrees Fahrenheit (60.0, micro-scaled).
pub const BASE_T: u64 = 60_000_000;

/// Orifice discharge coefficient (0.62, micro-scaled).
pub const C_D: u64 = 620_000;

/// pi / 4 (0.785398, micro-scaled).
pub const FRAC_PI_4: u64 = 785_398;

/// Largest accepted diameter: 1000 inches, micro-scaled.
pub const D_MAX: u64 = 1_000_000_000;

/// Largest accepted flowing pressure: 10000 psi, micro-scaled.
pub const P_MAX: u64 = 10_000_000_000;

/// Largest accepted flowing temperature: 10000 degrees F, micro-scaled.
pub const T_MAX: i64 = 10_000_000_000;

/// Largest accepted differential pressure: 10000 inH2O, micro-scaled.
pub const DP_MAX: u64 = 10_000_000_000;

/// Largest accepted specific gravity: 100, micro-scaled.
pub const SG_MAX: u64 = 100_000_000;

/// Largest accepted isentropic exponent: 100, micro-scaled.
pub const K_MAX: u64 = 100_000_000;

/// Largest accepted compressibility factor: 100, micro-scaled.
pub const Z_MAX: u64 = 100_000_000;

/// A configuration fault: rejected before any flow computation runs.
#[derive(Clone, Copy, PartialEq, Eq, Structural, Debug)]
pub enum ConfigError {
    ZeroOrifice,
    OrificeNotBelowBore,
    BoreTooLarge,
    BetaBelowResolution,
    PressureTooLarge,
    TemperatureTooLarge,
    TemperatureBelowAbsoluteZero,
    DifferentialTooLarge,
    ZeroSpecificGravity,
    SpecificGravityTooLarge,
    ZeroIsentropicExponent,
    IsentropicExponentTooLarge,
    ZeroFlowingCompressibility,
    FlowingCompressibilityTooLarge,
    ZeroBaseCompressibility,
    BaseCompressibilityTooLarge,
}

/// A per-cycle computation fault: the cycle is reported and skipped, never
/// published as garbage.
#[derive(Clone, Copy, PartialEq, Eq, Structural, Debug)]
pub enum FlowError {
    ZeroFlowingPressure,
    ExpansibilityOutOfRange,
    ZeroFlowingDensity,
    ZeroBaseDensity,
}

/// Orifice plate and meter-tube geometry, micro-inches.
#[derive(Clone, Copy, PartialEq, Eq, Structural, Debug)]
pub struct MeterGeometry {
    pub orifice_d: u64,
    pub meter_d: u64,
}

/// One cycle's flowing-condition measurements, micro-scaled.
#[derive(Clone, Copy, PartialEq, Eq, Structural, Debug)]
pub struct FlowingParams {
    pub pressure_f: u64,
    pub temperature_f: i64,
    pub differential: u64,
    pub sg: u64,
    pub k: u64,
    pub z_f: u64,
    pub z_b: u64,
}

/// The flow-computation engine: one geometry plus one set of flowing
/// conditions, both already validated.
#[derive(Clone, Copy, PartialEq, Eq, Structural, Debug)]
pub struct Aga3 {
    pub flowing_params: FlowingParams,
    pub geometry: MeterGeometry,
}

/// Valid geometry: both diameters positive and bounded, orifice strictly
/// inside the bore, and a beta ratio that does not vanish at this scale.
pub open spec fn geometry_ok(orifice_d: u64, meter_d: u64) -> bool {
    &&& 0 < orifice_d
    &&& orifice_d < meter_d
    &&& meter_d <= D_MAX
    &&& orifice_d * SCALE / (meter_d as int) >= 1
}

/// The configuration fault reported for invalid geometry, in check order.
pub open spec fn geometry_err_spec(orifice_d: u64, meter_d: u64) -> ConfigError {
    if orifice_d == 0 {
        ConfigError::ZeroOrifice
    } else if orifice_d >= meter_d {
        ConfigError::OrificeNotBelowBore
    } else if meter_d > D_MAX {
        ConfigError::BoreTooLarge
    } else {
        ConfigError::BetaBelowResolution
    }
}

/// What `MeterGeometry::new` returns: the geometry when it is valid, the
/// first failing check otherwise.
pub open spec fn new_geometry_spec(orifice_d: u64, meter_d: u64) -> Result<
    MeterGeometry,
    ConfigError,
> {
    if geometry_ok(orifice_d, meter_d) {
        Ok(MeterGeometry { orifice_d, meter_d })
    } else {
        Err(geometry_err_spec(orifice_d, meter_d))
    }
}

/// Valid flowing conditions: everything bounded, gravity, isentropic
/// exponent and both compressibilities strictly positive, temperature
/// above absolute zero.
pub open spec fn params_ok(
    pressure_f: u64,
    temperature_f: i64,
    differential: u64,
    sg: u64,
    k: u64,
    z_f: u64,
    z_b: u64,
) -> bool {
    &&& pressure_f <= P_MAX
    &&& temperature_f <= T_MAX
    &&& temperature_f + N5 >= 1
    &&& differential <= DP_MAX
    &&& 1 <= sg <= SG_MAX
    &&& 1 <= k <= K_MAX
    &&& 1 <= z_f <= Z_MAX
    &&& 1 <= z_b <= Z_MAX
}

/// The configuration fault reported for invalid flowing conditions, in
/// check order.
pub open spec fn params_err_spec(
    pressure_f: u64,
    temperature_f: i64,
    differential: u64,
    sg: u64,
    k: u64,
    z_f: u64,
    z_b: u64,
) -> ConfigError {
    if pressure_f > P_MAX {
        ConfigError::PressureTooLarge
    } else if temperature_f > T_MAX {
        ConfigError::TemperatureTooLarge
    } else if temperature_f + N5 < 1 {
        ConfigError::TemperatureBelowAbsoluteZero
    } else if differential > DP_MAX {
        ConfigError::DifferentialTooLarge
    } else if sg == 0 {
        ConfigError::ZeroSpecificGravity
    } else if sg > SG_MAX {
        ConfigError::SpecificGravityTooLarge
    } else if k == 0 {
        ConfigError::ZeroIsentropicExponent
    } else if k > K_MAX {
        ConfigError::IsentropicExponentTooLarge
    } else if z_f == 0 {
        ConfigError::ZeroFlowingCompressibility
    } else if z_f > Z_MAX {
        ConfigError::FlowingCompressibilityTooLarge
    } else if z_b == 0 {
        ConfigError::ZeroBaseCompressibility
    } else {
        ConfigError::BaseCompressibilityTooLarge
    }
}

/// What `FlowingParams::new` returns: the conditions when they are valid,
/// the first failing check otherwise.
pub open spec fn new_params_spec(
    pressure_f: u64,
    temperature_f: i64,
    differential: u64,
    sg: u64,
    k: u64,
    z_f: u64,
    z_b: u64,
) -> Result<FlowingParams, ConfigError> {
    if params_ok(pressure_f, temperature_f, differential, sg, k, z_f, z_b) {
        Ok(FlowingParams { pressure_f, temperature_f, differential, sg, k, z_f, z_b })
    } else {
        Err(params_err_spec(pressure_f, temperature_f, differential, sg, k, z_f, z_b))
    }
}

impl MeterGeometry {
    /// Well-formed geometry, as `new` establishes it.
    pub open spec fn wf(self) -> bool {
        geometry_ok(self.orifice_d, self.meter_d)
    }

    /// Beta ratio, micro-scaled: orifice diameter over meter diameter.
    pub open spec fn beta_spec(self) -> int {
        self.orifice_d * SCALE / (self.meter_d as int)
    }

    /// Beta to the fourth power, micro-scaled, truncated at each squaring.
    pub open spec fn beta4_spec(self) -> int {
        let b = self.beta_spec();
        let b2 = b * b / (SCALE as int);
        b2 * b2 / (SCALE as int)
    }

    /// Velocity-of-approach factor, micro-scaled: 1 / (1 - beta^4).
    pub open spec fn e_v_spec(self) -> int {
        SCALE * SCALE / (SCALE as int - self.beta4_spec())
    }

    /// Validates a geometry configuration.  Rejects, before the engine can
    /// ever see them, an orifice of zero size, an orifice not strictly
    /// inside the bore (beta would reach 1), an oversized bore, and a beta
    /// ratio that vanishes at this scale.
    pub fn new(orifice_d: u64, meter_d: u64) -> (r: Result<MeterGeometry, ConfigError>)
        ensures
            r == new_geometry_spec(orifice_d, meter_d),
            r matches Ok(g) ==> g.wf(),
    {
        if orifice_d == 0 {
            return Err(ConfigError::ZeroOrifice);
        }
        if orifice_d >= meter_d {
            return Err(ConfigError::OrificeNotBelowBore);
        }
        if meter_d > D_MAX {
            return Err(ConfigError::BoreTooLarge);
        }
        let num: u128 = (orifice_d as u128) * (SCALE as u128);
        if num < meter_d as u128 {
            proof {
                lemma_basic_div(num as int, meter_d as int);
            }
            return Err(ConfigError::BetaBelowResolution);
        }
        proof {
            lemma_div_is_ordered(meter_d as int, num as int, meter_d as int);
            lemma_div_by_self(meter_d as int);
        }
        Ok(MeterGeometry { orifice_d, meter_d })
    }

    /// Beta ratio, micro-scaled.  Strictly between 0 and 1 for every
    /// well-formed geometry.
    pub fn beta(&self) -> (r: u64)
        requires
            self.wf(),
        ensures
            r == self.beta_spec(),
            1 <= r < SCALE,
    {
        let num: u128 = (self.orifice_d as u128) * (SCALE as u128);
        let q: u128 = num / (self.meter_d as u128);
        proof {
            lemma_mul_strict_inequality(self.orifice_d as int, self.meter_d as int, SCALE as int);
            lemma_multiply_divide_lt(num as int, self.meter_d as int, SCALE as int);
        }
        q as u64
    }

    /// Beta to the fourth power, micro-scaled.
    pub fn beta_pow4(&self) -> (r: u64)
        requires
            self.wf(),
        ensures
            r == self.beta4_spec(),
            r < SCALE,
    {
        let b: u128 = self.beta() as u128;
        proof {
            lemma_mul_upper_bound(b as int, 999_999, b as int, 999_999);
            lemma_mul_inequality(b as int, SCALE as int, b as int);
            lemma_multiply_divide_le(b * b, SCALE as int, b as int);
            lemma_mul_nonnegative(b as int, b as int);
            lemma_div_pos_is_pos(b * b, SCALE as int);
        }
        let b2: u128 = b * b / (SCALE as u128);
        proof {
            lemma_mul_upper_bound(b2 as int, 999_999, b2 as int, 999_999);
            lemma_mul_inequality(b2 as int, SCALE as int, b2 as int);
            lemma_multiply_divide_le(b2 * b2, SCALE as int, b2 as int);
        }
        let b4: u128 = b2 * b2 / (SCALE as u128);
        b4 as u64
    }

    /// Velocity-of-approach (expansion) factor, micro-scaled.  At least 1
    /// for every well-formed geometry.
    pub fn e_v(&self) -> (r: u64)
        requires
            self.wf(),
        ensures
            r == self.e_v_spec(),
            SCALE <= r <= SCALE_SQ,
    {
        let b4: u64 = self.beta_pow4();
        let den: u64 = SCALE - b4;
        let e: u128 = (SCALE_SQ as u128) / (den as u128);
        proof {
            assert(SCALE_SQ == SCALE * SCALE);
            lemma_div_nonincreasing(SCALE_SQ as int, den as int);
            lemma_div_is_ordered_by_denominator(SCALE_SQ as int, den as int, SCALE as int);
            lemma_div_multiples_vanish(SCALE as int, SCALE as int);
        }
        e as u64
    }
}

impl FlowingParams {
    /// Well-formed flowing conditions, as `new` establishes them.
    pub open spec fn wf(self) -> bool {
        params_ok(
            self.pressure_f,
            self.temperature_f,
            self.differential,
            self.sg,
            self.k,
            self.z_f,
            self.z_b,
        )
    }

    /// Validates one cycle's flowing conditions.  Rejects out-of-range
    /// measurements and the non-positive gravity, isentropic exponent and
    /// compressibility factors that would make the equations meaningless.
    pub fn new(
        pressure_f: u64,
        temperature_f: i64,
        differential: u64,
        sg: u64,
        k: u64,
        z_f: u64,
        z_b: u64,
    ) -> (r: Result<FlowingParams, ConfigError>)
        ensures
            r == new_params_spec(pressure_f, temperature_f, differential, sg, k, z_f, z_b),
            r matches Ok(p) ==> p.wf(),
    {
        if pressure_f > P_MAX {
            return Err(ConfigError::PressureTooLarge);
        }
        if temperature_f > T_MAX {
            return Err(ConfigError::TemperatureTooLarge);
        }
        if temperature_f + (N5 as i64) < 1 {
            return Err(ConfigError::TemperatureBelowAbsoluteZero);
        }
        if differential > DP_MAX {
            return Err(ConfigError::DifferentialTooLarge);
        }
        if sg == 0 {
            return Err(ConfigError::ZeroSpecificGravity);
        }
        if sg > SG_MAX {
            return Err(ConfigError::SpecificGravityTooLarge);
        }
        if k == 0 {
            return Err(ConfigError::ZeroIsentropicExponent);
        }
        if k > K_MAX {
            return Err(ConfigError::IsentropicExponentTooLarge);
        }
        if z_f == 0 {
            return Err(ConfigError::ZeroFlowingCompressibility);
        }
        if z_f > Z_MAX {
            return Err(ConfigError::FlowingCompressibilityTooLarge);
        }
        if z_b == 0 {
            return Err(ConfigError::ZeroBaseCompressibility);
        }
        if z_b > Z_MAX {
            return Err(ConfigError::BaseCompressibilityTooLarge);
        }
        Ok(FlowingParams { pressure_f, temperature_f, differential, sg, k, z_f, z_b })
    }
}

/// `r` is the integer square root of `n`.
pub open spec fn is_isqrt(n: int, r: int) -> bool {
    &&& 0 <= r
    &&& r * r <= n
    &&& n < (r + 1) * (r + 1)
}

/// The integer square root of a non-negative `n`.
pub open spec fn isqrt_spec(n: int) -> int {
    choose|r: int| is_isqrt(n, r)
}

/// The integer square root is unique, so any witness pins `isqrt_spec`.
pub proof fn lemma_isqrt_unique(n: int, r: int)
    requires
        is_isqrt(n, r),
    ensures
        isqrt_spec(n) == r,
{
    let c = choose|x: int| is_isqrt(n, x);
    assert(is_isqrt(n, c));
    assert(c == r) by (nonlinear_arith)
        requires
            0 <= c,
            c * c <= n,
            n < (c + 1) * (c + 1),
            0 <= r,
            r * r <= n,
            n < (r + 1) * (r + 1),
    ;
}

/// Integer square root by bisection.
pub fn isqrt(n: u128) -> (r: u128)
    ensures
        is_isqrt(n as int, r as int),
        r == isqrt_spec(n as int),
{
    let mut lo: u128 = 0;
    let mut hi: u128 = 0x1_0000_0000_0000_0000;
    proof {
        assert((0x1_0000_0000_0000_0000 as int) * (0x1_0000_0000_0000_0000 as int) > n);
    }
    while lo + 1 < hi
        invariant
            lo < hi <= 0x1_0000_0000_0000_0000,
            lo * lo <= n,
            n < hi * hi,
        decreases hi - lo,
    {
        let mid: u128 = lo + (hi - lo) / 2;
        proof {
            assert(mid * mid <= 0xffff_ffff_ffff_ffff * 0xffff_ffff_ffff_ffff)
                by (nonlinear_arith)
                requires
                    0 <= mid <= 0xffff_ffff_ffff_ffff,
            ;
        }
        if mid * mid <= n {
            lo = mid;
        } else {
            hi = mid;
        }
    }
    proof {
        lemma_isqrt_unique(n as int, lo as int);
    }
    lo
}

impl Aga3 {
    /// Well-formed engine input: valid geometry and valid conditions.
    pub open spec fn wf(self) -> bool {
        &&& self.geometry.wf()
        &&& self.flowing_params.wf()
    }

    /// Pressure-ratio factor x, micro-scaled: differential over
    /// (orifice-flow constant times flowing pressure).
    pub open spec fn x_spec(self) -> int {
        self.flowing_params.differential * SCALE * SCALE / (
        N3 * self.flowing_params.pressure_f)
    }

    /// The beta-and-k slope of the expansibility correction, micro-scaled:
    /// (0.41 + 0.35 beta^4) / k.
    pub open spec fn y_p_spec(self) -> int {
        (410_000 + 350_000 * self.geometry.beta4_spec() / (SCALE as int)) * SCALE / (
        self.flowing_params.k as int)
    }

    /// Expansibility factor Y, micro-scaled: 1 - y_p * x.  Negative only
    /// outside the valid operating range.
    pub open spec fn y_spec(self) -> int {
        SCALE - self.y_p_spec() * self.x_spec() / (SCALE as int)
    }

    /// Mass-flow geometry factor, micro-scaled:
    /// (pi/4) * flow constant * E_v * orifice diameter squared.
    pub open spec fn m_spec(self) -> int {
        let c = FRAC_PI_4 * NC / (SCALE as int);
        let d2 = self.geometry.orifice_d * self.geometry.orifice_d / (SCALE as int);
        c * self.geometry.e_v_spec() / (SCALE as int) * d2 / (SCALE as int)
    }

    /// Density ratio at flowing conditions, micro-scaled:
    /// (P MR sg) / (Z_f R T_rankine).
    pub open spec fn sigma_f_spec(self) -> int {
        self.flowing_params.pressure_f * MR_AIR * self.flowing_params.sg * SCALE / (
        self.flowing_params.z_f * R_GAS * (self.flowing_params.temperature_f + N5))
    }

    /// Density ratio at base conditions, micro-scaled: the same formula at
    /// the fixed base pressure and temperature and Z_b.
    pub open spec fn sigma_b_spec(self) -> int {
        BASE_P * MR_AIR * self.flowing_params.sg * SCALE / (
        self.flowing_params.z_b * R_GAS * (BASE_T + N5))
    }

    /// The square-root argument of the flow equation, micro^2-scaled:
    /// 2 * differential * sigma_f.
    pub open spec fn sqrt_arg_spec(self) -> int {
        2 * self.flowing_params.differential * self.sigma_f_spec()
    }

    /// The flow equation has a well-defined result: positive flowing
    /// pressure, expansibility within range, and density ratios that do
    /// not vanish at this scale.
    pub open spec fn q_ok_spec(self) -> bool {
        &&& self.flowing_params.pressure_f >= 1
        &&& self.y_spec() >= 0
        &&& self.sigma_f_spec() >= 1
        &&& self.sigma_b_spec() >= 1
    }

    /// The computation fault reported when the flow equation has no
    /// well-defined result, in check order.
    pub open spec fn flow_err_spec(self) -> FlowError {
        if self.flowing_params.pressure_f == 0 {
            FlowError::ZeroFlowingPressure
        } else if self.y_spec() < 0 {
            FlowError::ExpansibilityOutOfRange
        } else if self.sigma_f_spec() < 1 {
            FlowError::ZeroFlowingDensity
        } else {
            FlowError::ZeroBaseDensity
        }
    }

    /// Base-condition volumetric flow, micro-scaled cubic feet per hour:
    /// m * Y * C_d * sqrt(2 dP sigma_f) / sigma_b.
    pub open spec fn q_v_b_spec(self) -> int {
        let s = isqrt_spec(self.sqrt_arg_spec());
        let t1 = self.m_spec() * self.y_spec() / (SCALE as int);
        let t2 = t1 * C_D / (SCALE as int);
        t2 * s / self.sigma_b_spec()
    }

    /// Pressure-ratio factor x, micro-scaled.
    pub fn x_factor(&self) -> (r: u128)
        requires
            self.wf(),
            self.flowing_params.pressure_f >= 1,
        ensures
            r == self.x_spec(),
            r <= 10_000_000_000_000_000_000_000,
    {
        let dp: u128 = self.flowing_params.differential as u128;
        proof {
            lemma_mul_upper_bound(dp as int, 10_000_000_000, SCALE_SQ as int, 1_000_000_000_000);
        }
        let num: u128 = dp * (SCALE_SQ as u128);
        proof {
            lemma_mul_upper_bound(
                N3 as int,
                27_707_000,
                self.flowing_params.pressure_f as int,
                10_000_000_000,
            );
            lemma_mul_inequality(1, self.flowing_params.pressure_f as int, N3 as int);
            lemma_mul_is_commutative(N3 as int, self.flowing_params.pressure_f as int);
        }
        let den: u128 = (N3 as u128) * (self.flowing_params.pressure_f as u128);
        proof {
            assert(SCALE_SQ == SCALE * SCALE);
            lemma_mul_is_associative(
                self.flowing_params.differential as int,
                SCALE as int,
                SCALE as int,
            );
            assert(num == self.flowing_params.differential * SCALE * SCALE);
            lemma_div_nonincreasing(num as int, den as int);
        }
        num / den
    }

    /// Expansibility factor Y, micro-scaled.  Exactly 1 when x is 0; at
    /// most 1 always; negative only out of range.
    pub fn y_factor(&self) -> (r: i128)
        requires
            self.wf(),
            self.flowing_params.pressure_f >= 1,
        ensures
            r == self.y_spec(),
            r <= SCALE,
            self.x_spec() == 0 ==> r == SCALE,
    {
        let b4: u128 = self.geometry.beta_pow4() as u128;
        let c: u128 = 350_000 * b4 / (SCALE as u128);
        proof {
            lemma_multiply_divide_le(350_000 * b4, SCALE as int, 350_000);
        }
        let a1: u128 = 410_000 + c;
        proof {
            lemma_mul_upper_bound(a1 as int, 760_000, SCALE as int, 1_000_000);
        }
        let num: u128 = a1 * (SCALE as u128);
        let yp: u128 = num / (self.flowing_params.k as u128);
        proof {
            lemma_div_nonincreasing(num as int, self.flowing_params.k as int);
            lemma_div_pos_is_pos(num as int, self.flowing_params.k as int);
        }
        let x: u128 = self.x_factor();
        proof {
            lemma_mul_upper_bound(
                yp as int,
                760_000_000_000,
                x as int,
                10_000_000_000_000_000_000_000,
            );
        }
        let t: u128 = yp * x;
        let u: u128 = t / (SCALE as u128);
        proof {
            lemma_div_nonincreasing(t as int, SCALE as int);
            lemma_div_pos_is_pos(t as int, SCALE as int);
            if self.x_spec() == 0 {
                lemma_div_of0(SCALE as int);
            }
        }
        (SCALE as i128) - (u as i128)
    }

    /// Mass-flow geometry factor, micro-scaled.
    pub fn mass_flow_factor(&self) -> (r: u128)
        requires
            self.wf(),
        ensures
            r == self.m_spec(),
            r <= 1_000_000_000_000_000_000_000,
    {
        proof {
            lemma_mul_upper_bound(FRAC_PI_4 as int, 785_398, NC as int, 323_279_000);
        }
        let c: u128 = (FRAC_PI_4 as u128) * (NC as u128) / (SCALE as u128);
        proof {
            assert(FRAC_PI_4 * NC == 253_902_680_042_000);
            lemma_fundamental_div_mod_converse(
                253_902_680_042_000,
                SCALE as int,
                253_902_680,
                42_000,
            );
            assert(c == 253_902_680);
        }
        let ev: u128 = self.geometry.e_v() as u128;
        proof {
            lemma_mul_upper_bound(c as int, 253_902_680, ev as int, 1_000_000_000_000);
        }
        let t1: u128 = c * ev;
        let t2: u128 = t1 / (SCALE as u128);
        proof {
            lemma_multiply_divide_le(t1 as int, SCALE as int, 253_902_680_000_000);
        }
        let od: u128 = self.geometry.orifice_d as u128;
        proof {
            lemma_mul_upper_bound(od as int, 1_000_000_000, od as int, 1_000_000_000);
        }
        let odsq: u128 = od * od;
        let d2: u128 = odsq / (SCALE as u128);
        proof {
            lemma_multiply_divide_le(odsq as int, SCALE as int, 1_000_000_000_000);
            lemma_mul_upper_bound(t2 as int, 253_902_680_000_000, d2 as int, 1_000_000_000_000);
        }
        let t3: u128 = t2 * d2;
        let m: u128 = t3 / (SCALE as u128);
        proof {
            lemma_multiply_divide_le(t3 as int, SCALE as int, 253_902_680_000_000_000_000);
        }
        m
    }

    /// The flowing compressibility factor this cycle runs with.
    pub fn z_f(&self) -> (r: u64)
        ensures
            r == self.flowing_params.z_f,
    {
        self.flowing_params.z_f
    }

    /// The base compressibility factor this cycle runs with.
    pub fn z_b(&self) -> (r: u64)
        ensures
            r == self.flowing_params.z_b,
    {
        self.flowing_params.z_b
    }

    /// Density ratio at flowing conditions, micro-scaled.
    pub fn sigma_f(&self) -> (r: u128)
        requires
            self.wf(),
        ensures
            r == self.sigma_f_spec(),
            r <= 2_700_000_000_000_000_000_000_000,
    {
        let pf: u128 = self.flowing_params.pressure_f as u128;
        proof {
            lemma_mul_upper_bound(pf as int, 10_000_000_000, MR_AIR as int, 28_962_500);
        }
        let n1: u128 = pf * (MR_AIR as u128);
        proof {
            lemma_mul_upper_bound(
                n1 as int,
                289_625_000_000_000_000,
                self.flowing_params.sg as int,
                100_000_000,
            );
        }
        let n2: u128 = n1 * (self.flowing_params.sg as u128);
        proof {
            lemma_mul_upper_bound(
                n2 as int,
                28_962_500_000_000_000_000_000_000,
                SCALE as int,
                1_000_000,
            );
        }
        let n3: u128 = n2 * (SCALE as u128);
        let tr_i: i64 = self.flowing_params.temperature_f + (N5 as i64);
        let tr: u128 = tr_i as u128;
        let zf: u128 = self.flowing_params.z_f as u128;
        proof {
            lemma_mul_upper_bound(zf as int, 100_000_000, R_GAS as int, 10_731_600);
            lemma_mul_inequality(1, zf as int, R_GAS as int);
            lemma_mul_is_commutative(zf as int, R_GAS as int);
        }
        let d1: u128 = zf * (R_GAS as u128);
        proof {
            lemma_mul_upper_bound(d1 as int, 1_073_160_000_000_000, tr as int, 10_459_670_000);
            lemma_mul_inequality(1, tr as int, d1 as int);
            lemma_mul_is_commutative(d1 as int, tr as int);
        }
        let d2: u128 = d1 * tr;
        let r: u128 = n3 / d2;
        proof {
            lemma_div_is_ordered_by_denominator(n3 as int, R_GAS as int, d2 as int);
            lemma_div_is_ordered(
                n3 as int,
                28_962_500_000_000_000_000_000_000_000_000,
                R_GAS as int,
            );
            lemma_multiply_divide_le(
                28_962_500_000_000_000_000_000_000_000_000,
                R_GAS as int,
                2_700_000_000_000_000_000_000_000,
            );
        }
        r
    }

    /// Density ratio at base conditions, micro-scaled.
    pub fn sigma_b(&self) -> (r: u128)
        requires
            self.wf(),
        ensures
            r == self.sigma_b_spec(),
            r <= 8_000_000_000_000,
    {
        proof {
            lemma_mul_upper_bound(BASE_P as int, 14_730_000, MR_AIR as int, 28_962_500);
        }
        let n1: u128 = (BASE_P as u128) * (MR_AIR as u128);
        proof {
            assert(BASE_P * MR_AIR == 426_617_625_000_000);
            lemma_mul_upper_bound(
                n1 as int,
                426_617_625_000_000,
                self.flowing_params.sg as int,
                100_000_000,
            );
        }
        let n2: u128 = n1 * (self.flowing_params.sg as u128);
        proof {
            lemma_mul_upper_bound(
                n2 as int,
                42_661_762_500_000_000_000_000,
                SCALE as int,
                1_000_000,
            );
        }
        let n3: u128 = n2 * (SCALE as u128);
        let btr: u128 = (BASE_T as u128) + (N5 as u128);
        let zb: u128 = self.flowing_params.z_b as u128;
        proof {
            lemma_mul_upper_bound(zb as int, 100_000_000, R_GAS as int, 10_731_600);
            lemma_mul_inequality(1, zb as int, R_GAS as int);
        }
        let d1: u128 = zb * (R_GAS as u128);
        proof {
            assert(btr == 519_670_000);
            lemma_mul_upper_bound(d1 as int, 1_073_160_000_000_000, btr as int, 519_670_000);
            lemma_mul_inequality(R_GAS as int, d1 as int, btr as int);
            assert(R_GAS * btr == 5_576_890_572_000_000);
        }
        let d2: u128 = d1 * btr;
        let r: u128 = n3 / d2;
        proof {
            lemma_div_is_ordered_by_denominator(
                n3 as int,
                5_576_890_572_000_000,
                d2 as int,
            );
            lemma_div_is_ordered(
                n3 as int,
                42_661_762_500_000_000_000_000_000_000,
                5_576_890_572_000_000,
            );
            lemma_multiply_divide_le(
                42_661_762_500_000_000_000_000_000_000,
                5_576_890_572_000_000,
                8_000_000_000_000,
            );
        }
        r
    }

    /// Base-condition volumetric flow rate, micro-scaled cubic feet per
    /// hour.  Reports a computation fault instead of a meaningless value:
    /// zero flowing pressure, an out-of-range expansibility, or a density
    /// ratio that vanishes at this scale.
    pub fn q_v_b(&self) -> (r: Result<u128, FlowError>)
        requires
            self.wf(),
        ensures
            r is Ok <==> self.q_ok_spec(),
            r matches Ok(q) ==> q == self.q_v_b_spec(),
            r matches Err(e) ==> e == self.flow_err_spec(),
    {
        if self.flowing_params.pressure_f == 0 {
            return Err(FlowError::ZeroFlowingPressure);
        }
        let y: i128 = self.y_factor();
        if y < 0 {
            return Err(FlowError::ExpansibilityOutOfRange);
        }
        let sf: u128 = self.sigma_f();
        if sf == 0 {
            return Err(FlowError::ZeroFlowingDensity);
        }
        let sb: u128 = self.sigma_b();
        if sb == 0 {
            return Err(FlowError::ZeroBaseDensity);
        }
        let m: u128 = self.mass_flow_factor();
        let dp2: u128 = 2 * (self.flowing_params.differential as u128);
        proof {
            lemma_mul_upper_bound(
                dp2 as int,
                20_000_000_000,
                sf as int,
                2_700_000_000_000_000_000_000_000,
            );
        }
        let arg: u128 = dp2 * sf;
        let s: u128 = isqrt(arg);
        proof {
            assert(s <= 240_000_000_000_000_000) by (nonlinear_arith)
                requires
                    0 <= s,
                    s * s <= arg,
                    arg <= 54_000_000_000_000_000_000_000_000_000_000_000,
            ;
        }
        let ypos: u128 = y as u128;
        proof {
            lemma_mul_upper_bound(m as int, 1_000_000_000_000_000_000_000, ypos as int, 1_000_000);
            lemma_multiply_divide_le(
                m * (ypos as int),
                SCALE as int,
                1_000_000_000_000_000_000_000,
            );
        }
        let t1: u128 = m * ypos / (SCALE as u128);
        proof {
            lemma_mul_upper_bound(t1 as int, 1_000_000_000_000_000_000_000, C_D as int, 620_000);
            lemma_multiply_divide_le(
                t1 * (C_D as int),
                SCALE as int,
                620_000_000_000_000_000_000,
            );
        }
        let t2: u128 = t1 * (C_D as u128) / (SCALE as u128);
        proof {
            lemma_mul_upper_bound(
                t2 as int,
                620_000_000_000_000_000_000,
                s as int,
                240_000_000_000_000_000,
            );
        }
        let t3: u128 = t2 * s;
        let q: u128 = t3 / sb;
        Ok(q)
    }
}

/// Beta to the fourth power is bounded by beta itself at this scale:
/// the basic bound chain behind the geometry laws.
proof fn lemma_beta4_bounds(g: MeterGeometry)
    requires
        g.wf(),
    ensures
        1 <= g.beta_spec() < SCALE,
        0 <= g.beta4_spec() <= g.beta_spec(),
{
    lemma_mul_strict_inequality(g.orifice_d as int, g.meter_d as int, SCALE as int);
    lemma_multiply_divide_lt(g.orifice_d * SCALE, g.meter_d as int, SCALE as int);
    let b = g.beta_spec();
    lemma_mul_nonnegative(b, b);
    lemma_div_pos_is_pos(b * b, SCALE as int);
    lemma_mul_inequality(b, SCALE as int, b);
    lemma_multiply_divide_le(b * b, SCALE as int, b);
    let b2 = b * b / (SCALE as int);
    lemma_mul_nonnegative(b2, b2);
    lemma_div_pos_is_pos(b2 * b2, SCALE as int);
    lemma_mul_inequality(b2, SCALE as int, b2);
    lemma_multiply_divide_le(b2 * b2, SCALE as int, b2);
}

/// For every well-formed geometry the beta ratio lies strictly between 0
/// and 1 and the velocity-of-approach factor is at least 1 - and strictly
/// above 1 whenever beta^4 does not vanish at this scale.
pub proof fn lemma_geometry_physical(g: MeterGeometry)
    requires
        g.wf(),
    ensures
        1 <= g.beta_spec() < SCALE,
        g.e_v_spec() >= SCALE,
        g.beta4_spec() >= 1 ==> g.e_v_spec() > SCALE,
{
    lemma_beta4_bounds(g);
    let b4 = g.beta4_spec();
    assert(SCALE * SCALE == 1_000_000_000_000);
    lemma_div_is_ordered_by_denominator(1_000_000_000_000, SCALE as int - b4, SCALE as int);
    lemma_div_multiples_vanish(SCALE as int, SCALE as int);
    if b4 >= 1 {
        lemma_div_is_ordered_by_denominator(1_000_000_000_000, SCALE as int - b4, 999_999);
        lemma_fundamental_div_mod_converse(999_999_999_999, 999_999, 1_000_001, 0);
        lemma_div_is_ordered(999_999_999_999, 1_000_000_000_000, 999_999);
    }
}

/// The expansibility slope y_p is never negative for well-formed inputs.
proof fn lemma_y_p_nonneg(a: Aga3)
    requires
        a.wf(),
    ensures
        a.y_p_spec() >= 0,
{
    lemma_beta4_bounds(a.geometry);
    let b4 = a.geometry.beta4_spec();
    lemma_div_pos_is_pos(350_000 * b4, SCALE as int);
    let a1 = 410_000 + 350_000 * b4 / (SCALE as int);
    lemma_mul_nonnegative(a1, SCALE as int);
    lemma_div_pos_is_pos(a1 * SCALE, a.flowing_params.k as int);
}

/// The expansibility factor never rises when the pressure-ratio factor x
/// grows, for a fixed geometry and isentropic exponent: Y is
/// monotonically non-increasing in x.
pub proof fn lemma_y_monotone(a1: Aga3, a2: Aga3)
    requires
        a1.wf(),
        a2.wf(),
        a1.geometry == a2.geometry,
        a1.flowing_params.k == a2.flowing_params.k,
        a1.x_spec() <= a2.x_spec(),
    ensures
        a2.y_spec() <= a1.y_spec(),
{
    lemma_y_p_nonneg(a1);
    let yp = a1.y_p_spec();
    assert(a2.y_p_spec() == yp);
    lemma_mul_inequality(a1.x_spec(), a2.x_spec(), yp);
    lemma_mul_is_commutative(yp, a1.x_spec());
    lemma_mul_is_commutative(yp, a2.x_spec());
    lemma_div_is_ordered(yp * a1.x_spec(), yp * a2.x_spec(), SCALE as int);
}

/// The engine is a pure function of its inputs: identical geometry and
/// flowing conditions give identical domain checks, faults and flow.
pub proof fn lemma_engine_deterministic(a: Aga3, b: Aga3)
    requires
        a == b,
    ensures
        a.q_ok_spec() == b.q_ok_spec(),
        a.q_v_b_spec() == b.q_v_b_spec(),
        a.flow_err_spec() == b.flow_err_spec(),
{
}

/// With zero differential pressure the pressure-ratio factor is exactly 0,
/// the expansibility factor is exactly 1, and the computed base flow is
/// exactly 0, whenever the domain checks pass at all.
pub proof fn lemma_zero_differential_flow(a: Aga3)
    requires
        a.wf(),
        a.flowing_params.differential == 0,
        a.q_ok_spec(),
    ensures
        a.x_spec() == 0,
        a.y_spec() == SCALE,
        a.q_v_b_spec() == 0,
{
    lemma_mul_by_zero_is_zero(SCALE as int);
    lemma_mul_strictly_positive(N3 as int, a.flowing_params.pressure_f as int);
    let den = N3 * a.flowing_params.pressure_f;
    lemma_div_of0(den);
    assert(a.x_spec() == 0);
    lemma_mul_by_zero_is_zero(a.y_p_spec());
    lemma_div_of0(SCALE as int);
    assert(a.y_spec() == SCALE);
    lemma_mul_by_zero_is_zero(a.sigma_f_spec());
    assert(a.sqrt_arg_spec() == 0);
    lemma_isqrt_unique(0, 0);
    let t1 = a.m_spec() * a.y_spec() / (SCALE as int);
    let t2 = t1 * C_D / (SCALE as int);
    lemma_mul_by_zero_is_zero(t2);
    lemma_div_of0(a.sigma_b_spec());
    assert(a.q_v_b_spec() == 0);
}

} // verus!
