use aga3_flow::aga3::{ConfigError, FlowError};
use aga3_flow::cycle::{
    compute_cycle, next_transport_decision, pace_decision, publish_decision, ComputedRate,
    CycleError, LoopMode, PaceAction, PublishAction, RetryPolicy, TransportDecision,
    TransportFaultKind,
};

#[test]
fn full_cycle_golden_scenario() {
    let r = compute_cycle(
        2_000_000,
        4_000_000,
        500_000_000,
        70_000_000,
        100_000_000,
        650_000,
        1_300_000,
        950_000,
        1_000_000,
    )
    .unwrap();
    assert_eq!(r.base_cfh, 251_608_740_403); // 251608.74 cf/h
    assert_eq!(r.metric_per_hour, 7_124_698_864); // 7124.70 Sm3/h
    assert_eq!(r.metric_per_day, 170_992_772_736); // 170992.77 Sm3/d
    assert_eq!(r.metric_per_day, r.metric_per_hour * 24);
}

#[test]
fn cycle_repeats_bit_identically() {
    let args = (
        2_000_000u64,
        4_000_000u64,
        500_000_000u64,
        70_000_000i64,
        100_000_000u64,
        650_000u64,
        1_300_000u64,
        950_000u64,
        1_000_000u64,
    );
    let a = compute_cycle(args.0, args.1, args.2, args.3, args.4, args.5, args.6, args.7, args.8);
    let b = compute_cycle(args.0, args.1, args.2, args.3, args.4, args.5, args.6, args.7, args.8);
    assert_eq!(a, b);
}

#[test]
fn cycle_rejects_bad_geometry_before_the_engine() {
    let r = compute_cycle(
        4_000_000,
        4_000_000,
        500_000_000,
        70_000_000,
        100_000_000,
        650_000,
        1_300_000,
        950_000,
        1_000_000,
    );
    assert_eq!(r, Err(CycleError::Config(ConfigError::OrificeNotBelowBore)));
}

#[test]
fn cycle_reports_computation_fault_without_publishing_garbage() {
    let r = compute_cycle(
        2_000_000,
        4_000_000,
        0,
        70_000_000,
        100_000_000,
        650_000,
        1_300_000,
        950_000,
        1_000_000,
    );
    assert_eq!(r, Err(CycleError::Computation(FlowError::ZeroFlowingPressure)));
}

#[test]
fn cycle_caps_unpublishable_rates() {
    // beta 0.999999 under extreme conditions: the rate overflows the
    // publishable range and is reported, not rescaled.
    let r = compute_cycle(
        999_999_999,
        1_000_000_000,
        10_000_000_000,
        -459_669_999,
        10_000_000_000,
        100_000_000,
        100_000_000,
        1,
        100_000_000,
    );
    assert_eq!(r, Err(CycleError::RateOutOfRange));
}

#[test]
fn zero_differential_cycle_reports_zero_flow() {
    let r = compute_cycle(
        2_000_000,
        4_000_000,
        500_000_000,
        70_000_000,
        0,
        650_000,
        1_300_000,
        950_000,
        1_000_000,
    )
    .unwrap();
    assert_eq!(r.base_cfh, 0);
    assert_eq!(r.metric_per_hour, 0);
    assert_eq!(r.metric_per_day, 0);
}

#[test]
fn retryable_faults_back_off_and_stay_within_budget() {
    let policy = RetryPolicy { budget: 3, base_backoff_ms: 500 };
    assert_eq!(
        next_transport_decision(TransportFaultKind::Retryable, 0, policy),
        TransportDecision::Retry { backoff_ms: 500 }
    );
    assert_eq!(
        next_transport_decision(TransportFaultKind::Retryable, 1, policy),
        TransportDecision::Retry { backoff_ms: 1000 }
    );
    assert_eq!(
        next_transport_decision(TransportFaultKind::Retryable, 2, policy),
        TransportDecision::Retry { backoff_ms: 2000 }
    );
    assert_eq!(
        next_transport_decision(TransportFaultKind::Retryable, 3, policy),
        TransportDecision::GiveUp
    );
}

#[test]
fn backoff_doubles_up_to_its_cap() {
    let policy = RetryPolicy { budget: 1000, base_backoff_ms: 100 };
    assert_eq!(
        next_transport_decision(TransportFaultKind::Retryable, 5, policy),
        TransportDecision::Retry { backoff_ms: 3200 }
    );
    assert_eq!(
        next_transport_decision(TransportFaultKind::Retryable, 6, policy),
        TransportDecision::Retry { backoff_ms: 6400 }
    );
    assert_eq!(
        next_transport_decision(TransportFaultKind::Retryable, 999, policy),
        TransportDecision::Retry { backoff_ms: 6400 }
    );
}

#[test]
fn fatal_faults_give_up_immediately() {
    let policy = RetryPolicy { budget: 3, base_backoff_ms: 500 };
    assert_eq!(
        next_transport_decision(TransportFaultKind::Fatal, 0, policy),
        TransportDecision::GiveUp
    );
}

#[test]
fn only_successful_continuous_cycles_publish() {
    let ok: Result<ComputedRate, CycleError> = Ok(ComputedRate {
        base_cfh: 1,
        metric_per_hour: 1,
        metric_per_day: 24,
    });
    let fault: Result<ComputedRate, CycleError> =
        Err(CycleError::Computation(FlowError::ZeroBaseDensity));
    assert_eq!(publish_decision(LoopMode::Continuous, &ok), PublishAction::Publish);
    assert_eq!(publish_decision(LoopMode::Continuous, &fault), PublishAction::Skip);
    assert_eq!(publish_decision(LoopMode::SingleShot, &ok), PublishAction::Skip);
}

#[test]
fn single_shot_terminates_and_continuous_paces() {
    assert_eq!(pace_decision(LoopMode::SingleShot), PaceAction::Terminate);
    assert_eq!(pace_decision(LoopMode::Continuous), PaceAction::SleepThenRepeat);
}
