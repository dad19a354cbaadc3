//! Per-cycle decision logic of the acquisition loop: validate one cycle's
//! inputs, run the engine, rescale the rate to metric reporting units, and
//! decide what the loop does next on success, computation faults and
//! transport faults.

use crate::aga3::{
    geometry_err_spec, geometry_ok, new_geometry_spec, new_params_spec, params_err_spec,
    params_ok, Aga3, ConfigError, FlowError, FlowingParams, MeterGeometry, SCALE,
};
use vstd::arithmetic::div_mod::lemma_multiply_divide_le;
use vstd::arithmetic::mul::lemma_mul_upper_bound;
use vstd::prelude::*;

verus! {

/// Cubic feet per cubic metre (35.315, micro-scaled).
pub const CF_PER_M3: u64 = 35_315_000;

/// Hours per day, for the per-day reporting unit.
pub const HOURS_PER_DAY: u64 = 24;

/// Largest publishable base flow, micro-scaled cubic feet per hour; above
/// this the cycle reports a fault rather than rescale a meaningless value.
pub const Q_CAP: u128 = 100_000_000_000_000_000_000_000_000_000_000;

/// One cycle's computed output: the base-condition flow in micro-scaled
/// cubic feet per hour and its metric per-hour and per-day rescalings.
#[derive(Clone, Copy, PartialEq, Eq, Structural, Debug)]
pub struct ComputedRate {
    pub base_cfh: u128,
    pub metric_per_hour: u128,
    pub metric_per_day: u128,
}

/// Why a cycle produced no publishable rate.
#[derive(Clone, Copy, PartialEq, Eq, Structural, Debug)]
pub enum CycleError {
    /// Invalid configuration: fatal before the loop starts.
    Config(ConfigError),
    /// A per-cycle computation fault: reported, skipped, never published.
    Computation(FlowError),
    /// The computed rate exceeds the publishable range.
    RateOutOfRange,
}

/// Metric flow per hour, micro-scaled standard cubic metres.
pub open spec fn metric_per_hour_spec(q: int) -> int {
    q * SCALE / (CF_PER_M3 as int)
}

/// Metric flow per day, micro-scaled standard cubic metres.
pub open spec fn metric_per_day_spec(q: int) -> int {
    metric_per_hour_spec(q) * HOURS_PER_DAY
}

/// What one full cycle computes from its raw micro-scaled inputs: the
/// validated engine's flow rescaled to metric units, or the first fault
/// the cycle runs into.
pub open spec fn compute_cycle_spec(
    orifice_d: u64,
    meter_d: u64,
    pressure_f: u64,
    temperature_f: i64,
    differential: u64,
    sg: u64,
    k: u64,
    z_f: u64,
    z_b: u64,
) -> Result<ComputedRate, CycleError> {
    if !geometry_ok(orifice_d, meter_d) {
        Err(CycleError::Config(geometry_err_spec(orifice_d, meter_d)))
    } else if !params_ok(pressure_f, temperature_f, differential, sg, k, z_f, z_b) {
        Err(
            CycleError::Config(
                params_err_spec(pressure_f, temperature_f, differential, sg, k, z_f, z_b),
            ),
        )
    } else {
        let engine = Aga3 {
            flowing_params: FlowingParams {
                pressure_f,
                temperature_f,
                differential,
                sg,
                k,
                z_f,
                z_b,
            },
            geometry: MeterGeometry { orifice_d, meter_d },
        };
        if !engine.q_ok_spec() {
            Err(CycleError::Computation(engine.flow_err_spec()))
        } else if engine.q_v_b_spec() > Q_CAP {
            Err(CycleError::RateOutOfRange)
        } else {
            let q = engine.q_v_b_spec();
            Ok(
                ComputedRate {
                    base_cfh: q as u128,
                    metric_per_hour: metric_per_hour_spec(q) as u128,
                    metric_per_day: metric_per_day_spec(q) as u128,
                },
            )
        }
    }
}

/// Runs one acquisition cycle's computation: validates geometry and
/// flowing conditions, computes the base-condition flow, and rescales it
/// to metric per-hour and per-day units.  Every fault comes back as the
/// matching `CycleError` instead of a meaningless number.
pub fn compute_cycle(
    orifice_d: u64,
    meter_d: u64,
    pressure_f: u64,
    temperature_f: i64,
    differential: u64,
    sg: u64,
    k: u64,
    z_f: u64,
    z_b: u64,
) -> (r: Result<ComputedRate, CycleError>)
    ensures
        r == compute_cycle_spec(
            orifice_d,
            meter_d,
            pressure_f,
            temperature_f,
            differential,
            sg,
            k,
            z_f,
            z_b,
        ),
{
    let geometry = match MeterGeometry::new(orifice_d, meter_d) {
        Ok(g) => g,
        Err(e) => {
            return Err(CycleError::Config(e));
        },
    };
    let flowing_params = match FlowingParams::new(
        pressure_f,
        temperature_f,
        differential,
        sg,
        k,
        z_f,
        z_b,
    ) {
        Ok(p) => p,
        Err(e) => {
            return Err(CycleError::Config(e));
        },
    };
    let engine = Aga3 { flowing_params, geometry };
    let q: u128 = match engine.q_v_b() {
        Ok(q) => q,
        Err(e) => {
            return Err(CycleError::Computation(e));
        },
    };
    if q > Q_CAP {
        return Err(CycleError::RateOutOfRange);
    }
    proof {
        lemma_mul_upper_bound(
            q as int,
            100_000_000_000_000_000_000_000_000_000_000,
            SCALE as int,
            1_000_000,
        );
        lemma_multiply_divide_le(
            q * SCALE,
            CF_PER_M3 as int,
            3_000_000_000_000_000_000_000_000_000_000,
        );
    }
    let metric_per_hour: u128 = q * (SCALE as u128) / (CF_PER_M3 as u128);
    proof {
        lemma_mul_upper_bound(
            metric_per_hour as int,
            3_000_000_000_000_000_000_000_000_000_000,
            HOURS_PER_DAY as int,
            24,
        );
    }
    let metric_per_day: u128 = metric_per_hour * (HOURS_PER_DAY as u128);
    Ok(ComputedRate { base_cfh: q, metric_per_hour, metric_per_day })
}

/// How a transport fault is classified: worth another try, or fatal.
#[derive(Clone, Copy, PartialEq, Eq, Structural, Debug)]
pub enum TransportFaultKind {
    Retryable,
    Fatal,
}

/// The loop's bounded retry budget and the base pause between retries.
#[derive(Clone, Copy, PartialEq, Eq, Structural, Debug)]
pub struct RetryPolicy {
    pub budget: u32,
    pub base_backoff_ms: u64,
}

impl RetryPolicy {
    /// A sane policy: at most 1000 retries, base pause at most 100000 s.
    pub open spec fn wf(self) -> bool {
        &&& self.budget <= 1000
        &&& self.base_backoff_ms <= 100_000_000
    }
}

/// What the loop does after a transport fault.
#[derive(Clone, Copy, PartialEq, Eq, Structural, Debug)]
pub enum TransportDecision {
    Retry { backoff_ms: u64 },
    GiveUp,
}

/// The backoff multiplier: doubled on each successive attempt, capped at 64.
pub open spec fn backoff_factor_spec(attempts_used: u32) -> int {
    if attempts_used == 0 {
        1
    } else if attempts_used == 1 {
        2
    } else if attempts_used == 2 {
        4
    } else if attempts_used == 3 {
        8
    } else if attempts_used == 4 {
        16
    } else if attempts_used == 5 {
        32
    } else {
        64
    }
}

/// The loop retries a retryable fault while budget remains, pausing with
/// capped exponential backoff; everything else gives up cleanly.
pub open spec fn transport_decision_spec(
    kind: TransportFaultKind,
    attempts_used: u32,
    policy: RetryPolicy,
) -> TransportDecision {
    if kind == TransportFaultKind::Retryable && attempts_used < policy.budget {
        TransportDecision::Retry {
            backoff_ms: (policy.base_backoff_ms * backoff_factor_spec(attempts_used)) as u64,
        }
    } else {
        TransportDecision::GiveUp
    }
}

/// Decides whether a failed transport operation is retried, and after what
/// pause, or whether the loop shuts down with a diagnostic.
pub fn next_transport_decision(
    kind: TransportFaultKind,
    attempts_used: u32,
    policy: RetryPolicy,
) -> (r: TransportDecision)
    requires
        policy.wf(),
    ensures
        r == transport_decision_spec(kind, attempts_used, policy),
{
    match kind {
        TransportFaultKind::Fatal => TransportDecision::GiveUp,
        TransportFaultKind::Retryable => {
            if attempts_used < policy.budget {
                let factor: u64 = if attempts_used == 0 {
                    1
                } else if attempts_used == 1 {
                    2
                } else if attempts_used == 2 {
                    4
                } else if attempts_used == 3 {
                    8
                } else if attempts_used == 4 {
                    16
                } else if attempts_used == 5 {
                    32
                } else {
                    64
                };
                proof {
                    lemma_mul_upper_bound(
                        policy.base_backoff_ms as int,
                        100_000_000,
                        factor as int,
                        64,
                    );
                }
                TransportDecision::Retry { backoff_ms: policy.base_backoff_ms * factor }
            } else {
                TransportDecision::GiveUp
            }
        },
    }
}

/// The loop's operating mode: one calculation, or a continuous
/// register-driven cycle.
#[derive(Clone, Copy, PartialEq, Eq, Structural, Debug)]
pub enum LoopMode {
    SingleShot,
    Continuous,
}

/// What a cycle does with its outcome.
#[derive(Clone, Copy, PartialEq, Eq, Structural, Debug)]
pub enum PublishAction {
    Publish,
    Skip,
}

/// What the loop does after a cycle completes.
#[derive(Clone, Copy, PartialEq, Eq, Structural, Debug)]
pub enum PaceAction {
    SleepThenRepeat,
    Terminate,
}

/// Only a continuous-mode cycle that computed a rate publishes it; a cycle
/// with a fault skips publishing and never corrupts earlier output.
pub fn publish_decision(mode: LoopMode, computed: &Result<ComputedRate, CycleError>) -> (r:
    PublishAction)
    ensures
        r == PublishAction::Publish <==> (mode == LoopMode::Continuous && computed is Ok),
{
    match mode {
        LoopMode::SingleShot => PublishAction::Skip,
        LoopMode::Continuous => match computed {
            Ok(_) => PublishAction::Publish,
            Err(_) => PublishAction::Skip,
        },
    }
}

/// Continuous mode paces and repeats; single-shot mode terminates after
/// one cycle.
pub fn pace_decision(mode: LoopMode) -> (r: PaceAction)
    ensures
        r == PaceAction::SleepThenRepeat <==> mode == LoopMode::Continuous,
{
    match mode {
        LoopMode::SingleShot => PaceAction::Terminate,
        LoopMode::Continuous => PaceAction::SleepThenRepeat,
    }
}

} // verus!
