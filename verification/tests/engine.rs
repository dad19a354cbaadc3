use aga3_flow::aga3::{Aga3, ConfigError, FlowError, FlowingParams, MeterGeometry};

fn golden_engine() -> Aga3 {
    // orifice 2.0 in, bore 4.0 in, pressure 500 psi, temperature 70 F,
    // differential 100 inH2O, sg 0.65, k 1.3, Z_f 0.95, Z_b 1.0.
    let geometry = MeterGeometry::new(2_000_000, 4_000_000).unwrap();
    let flowing_params = FlowingParams::new(
        500_000_000,
        70_000_000,
        100_000_000,
        650_000,
        1_300_000,
        950_000,
        1_000_000,
    )
    .unwrap();
    Aga3 { flowing_params, geometry }
}

#[test]
fn beta_and_expansion_factor_for_half_beta() {
    let g = MeterGeometry::new(1_000_000, 2_000_000).unwrap();
    assert_eq!(g.beta(), 500_000); // beta = 0.5
    assert_eq!(g.beta_pow4(), 62_500); // 0.5^4 = 0.0625
    assert_eq!(g.e_v(), 1_066_666); // 1/(1-0.0625) = 1.066666...
}

#[test]
fn beta_stays_inside_unit_interval() {
    let g = MeterGeometry::new(999_999_999, 1_000_000_000).unwrap();
    let b = g.beta();
    assert!(1 <= b && b < 1_000_000);
    assert!(g.e_v() > 1_000_000); // strictly above 1 once beta^4 registers
}

#[test]
fn equal_orifice_and_bore_rejected_before_engine() {
    // beta -> 1 must be a configuration error, not an infinite rate.
    assert_eq!(
        MeterGeometry::new(4_000_000, 4_000_000),
        Err(ConfigError::OrificeNotBelowBore)
    );
    assert_eq!(
        MeterGeometry::new(4_000_001, 4_000_000),
        Err(ConfigError::OrificeNotBelowBore)
    );
}

#[test]
fn invalid_geometry_variants() {
    assert_eq!(MeterGeometry::new(0, 4_000_000), Err(ConfigError::ZeroOrifice));
    assert_eq!(
        MeterGeometry::new(2_000_000, 2_000_000_000),
        Err(ConfigError::BoreTooLarge)
    );
    // orifice a millionth of the bore: beta vanishes at this scale
    assert_eq!(
        MeterGeometry::new(1, 1_000_000_000),
        Err(ConfigError::BetaBelowResolution)
    );
}

#[test]
fn invalid_params_variants() {
    let ok = FlowingParams::new(
        500_000_000,
        70_000_000,
        100_000_000,
        650_000,
        1_300_000,
        950_000,
        1_000_000,
    );
    assert!(ok.is_ok());
    let e = |p: Result<FlowingParams, ConfigError>| p.unwrap_err();
    assert_eq!(
        e(FlowingParams::new(10_000_000_001, 70_000_000, 0, 650_000, 1_300_000, 950_000, 1_000_000)),
        ConfigError::PressureTooLarge
    );
    assert_eq!(
        e(FlowingParams::new(0, 10_000_000_001, 0, 650_000, 1_300_000, 950_000, 1_000_000)),
        ConfigError::TemperatureTooLarge
    );
    assert_eq!(
        e(FlowingParams::new(0, -459_670_000, 0, 650_000, 1_300_000, 950_000, 1_000_000)),
        ConfigError::TemperatureBelowAbsoluteZero
    );
    assert_eq!(
        e(FlowingParams::new(0, 0, 10_000_000_001, 650_000, 1_300_000, 950_000, 1_000_000)),
        ConfigError::DifferentialTooLarge
    );
    assert_eq!(
        e(FlowingParams::new(0, 0, 0, 0, 1_300_000, 950_000, 1_000_000)),
        ConfigError::ZeroSpecificGravity
    );
    assert_eq!(
        e(FlowingParams::new(0, 0, 0, 100_000_001, 1_300_000, 950_000, 1_000_000)),
        ConfigError::SpecificGravityTooLarge
    );
    assert_eq!(
        e(FlowingParams::new(0, 0, 0, 650_000, 0, 950_000, 1_000_000)),
        ConfigError::ZeroIsentropicExponent
    );
    assert_eq!(
        e(FlowingParams::new(0, 0, 0, 650_000, 100_000_001, 950_000, 1_000_000)),
        ConfigError::IsentropicExponentTooLarge
    );
    assert_eq!(
        e(FlowingParams::new(0, 0, 0, 650_000, 1_300_000, 0, 1_000_000)),
        ConfigError::ZeroFlowingCompressibility
    );
    assert_eq!(
        e(FlowingParams::new(0, 0, 0, 650_000, 1_300_000, 100_000_001, 1_000_000)),
        ConfigError::FlowingCompressibilityTooLarge
    );
    assert_eq!(
        e(FlowingParams::new(0, 0, 0, 650_000, 1_300_000, 950_000, 0)),
        ConfigError::ZeroBaseCompressibility
    );
    assert_eq!(
        e(FlowingParams::new(0, 0, 0, 650_000, 1_300_000, 950_000, 100_000_001)),
        ConfigError::BaseCompressibilityTooLarge
    );
}

#[test]
fn golden_scenario_intermediate_factors() {
    let a = golden_engine();
    assert_eq!(a.geometry.beta(), 500_000);
    assert_eq!(a.x_factor(), 7_218); // 100/(27.707*500) = 0.007218
    assert_eq!(a.y_factor(), 997_603); // Y = 0.997603
    assert_eq!(a.mass_flow_factor(), 1_083_317_424); // 1083.3
    assert_eq!(a.sigma_f(), 1_743_114); // 1.743
    assert_eq!(a.sigma_b(), 49_723); // 0.0497
    assert_eq!(a.z_f(), 950_000);
    assert_eq!(a.z_b(), 1_000_000);
}

#[test]
fn golden_scenario_base_flow() {
    let a = golden_engine();
    // 251608.74 cubic feet per hour: finite, positive, pinned exactly.
    assert_eq!(a.q_v_b(), Ok(251_608_740_403));
}

#[test]
fn engine_is_idempotent_on_identical_inputs() {
    let a = golden_engine();
    let b = golden_engine();
    let first = a.q_v_b();
    let second = a.q_v_b();
    assert_eq!(first, second);
    assert_eq!(first, b.q_v_b());
    assert_eq!(a.y_factor(), b.y_factor());
    assert_eq!(a.sigma_f(), b.sigma_f());
}

#[test]
fn zero_differential_gives_zero_flow_and_unit_expansibility() {
    let geometry = MeterGeometry::new(2_000_000, 4_000_000).unwrap();
    let flowing_params = FlowingParams::new(
        500_000_000,
        70_000_000,
        0,
        650_000,
        1_300_000,
        950_000,
        1_000_000,
    )
    .unwrap();
    let a = Aga3 { flowing_params, geometry };
    assert_eq!(a.x_factor(), 0);
    assert_eq!(a.y_factor(), 1_000_000); // Y = 1 exactly
    assert_eq!(a.q_v_b(), Ok(0));
}

#[test]
fn expansibility_never_rises_with_differential() {
    let low = golden_engine();
    let mut params = low.flowing_params;
    params.differential = 200_000_000;
    let high = Aga3 { flowing_params: params, geometry: low.geometry };
    assert_eq!(low.y_factor(), 997_603);
    assert_eq!(high.y_factor(), 995_205);
    assert!(high.y_factor() <= low.y_factor());
    assert!(high.x_factor() >= low.x_factor());
}

#[test]
fn zero_pressure_is_a_computation_error() {
    let geometry = MeterGeometry::new(2_000_000, 4_000_000).unwrap();
    let flowing_params = FlowingParams::new(
        0,
        70_000_000,
        100_000_000,
        650_000,
        1_300_000,
        950_000,
        1_000_000,
    )
    .unwrap();
    let a = Aga3 { flowing_params, geometry };
    assert_eq!(a.q_v_b(), Err(FlowError::ZeroFlowingPressure));
}

#[test]
fn out_of_range_expansibility_is_a_computation_error() {
    // one micro-psi of line pressure under a full-range differential
    let geometry = MeterGeometry::new(2_000_000, 4_000_000).unwrap();
    let flowing_params = FlowingParams::new(
        1,
        70_000_000,
        10_000_000_000,
        650_000,
        1_300_000,
        950_000,
        1_000_000,
    )
    .unwrap();
    let a = Aga3 { flowing_params, geometry };
    assert_eq!(a.q_v_b(), Err(FlowError::ExpansibilityOutOfRange));
}

#[test]
fn vanishing_flowing_density_is_a_computation_error() {
    // a trace of gas at maximal compressibility: sigma_f truncates to zero
    let geometry = MeterGeometry::new(2_000_000, 4_000_000).unwrap();
    let flowing_params = FlowingParams::new(
        1,
        10_000_000_000,
        0,
        1,
        1_300_000,
        100_000_000,
        1_000_000,
    )
    .unwrap();
    let a = Aga3 { flowing_params, geometry };
    assert_eq!(a.q_v_b(), Err(FlowError::ZeroFlowingDensity));
}

#[test]
fn vanishing_base_density_is_a_computation_error() {
    let geometry = MeterGeometry::new(2_000_000, 4_000_000).unwrap();
    let flowing_params = FlowingParams::new(
        10_000_000_000,
        70_000_000,
        100_000_000,
        1,
        1_300_000,
        1_000_000,
        1_000_000,
    )
    .unwrap();
    let a = Aga3 { flowing_params, geometry };
    assert_eq!(a.q_v_b(), Err(FlowError::ZeroBaseDensity));
}
