use aga3_flow::codec::{decode_input_block, decode_words, encode_words, TransportError};

#[test]
fn words_round_trip_finite_floats() {
    let samples: [f32; 8] = [
        0.0,
        -0.0,
        1.0,
        -1.0,
        3.1415927,
        1.5e-39,
        f32::MAX,
        f32::MIN_POSITIVE,
    ];
    for v in samples {
        let bits = v.to_bits();
        let (hi, lo) = encode_words(bits);
        let back = decode_words(hi, lo);
        assert_eq!(back, bits);
        assert_eq!(f32::from_bits(back).to_bits(), v.to_bits());
    }
}

#[test]
fn words_round_trip_nan_and_infinity_patterns() {
    let patterns: [u32; 5] = [
        0x7FC0_0000, // quiet NaN
        0x7FC0_1234, // NaN with payload
        0xFFC0_0001, // negative NaN
        0x7F80_0000, // +infinity
        0xFF80_0000, // -infinity
    ];
    for bits in patterns {
        let (hi, lo) = encode_words(bits);
        assert_eq!(decode_words(hi, lo), bits);
    }
}

#[test]
fn encode_words_is_big_endian_word_order() {
    let (hi, lo) = encode_words(0x1234_5678);
    assert_eq!(hi, 0x1234);
    assert_eq!(lo, 0x5678);
    assert_eq!(decode_words(0x1234, 0x5678), 0x1234_5678);
}

#[test]
fn decode_block_of_twelve_registers() {
    let regs: Vec<u16> = vec![
        0x4248, 0x0000, // 50.0
        0x428C, 0x0000, // 70.0
        0x42C8, 0x0000, // 100.0
        0x3F26, 0x6666, // 0.65
        0x4000, 0x0000, // 2.0
        0x4080, 0x0000, // 4.0
    ];
    let m = decode_input_block(&regs).unwrap();
    assert_eq!(f32::from_bits(m.pressure_bits), 50.0);
    assert_eq!(f32::from_bits(m.temperature_bits), 70.0);
    assert_eq!(f32::from_bits(m.differential_bits), 100.0);
    assert_eq!(f32::from_bits(m.sg_bits), 0.65);
    assert_eq!(f32::from_bits(m.orifice_bits), 2.0);
    assert_eq!(f32::from_bits(m.bore_bits), 4.0);
}

#[test]
fn short_register_block_is_a_transport_error() {
    let regs: Vec<u16> = vec![0; 11];
    assert_eq!(
        decode_input_block(&regs),
        Err(TransportError::WrongRegisterCount { expected: 12, got: 11 })
    );
    let empty: Vec<u16> = vec![];
    assert_eq!(
        decode_input_block(&empty),
        Err(TransportError::WrongRegisterCount { expected: 12, got: 0 })
    );
}

#[test]
fn oversized_register_block_is_a_transport_error() {
    let regs: Vec<u16> = vec![0; 13];
    assert_eq!(
        decode_input_block(&regs),
        Err(TransportError::WrongRegisterCount { expected: 12, got: 13 })
    );
}

#[test]
fn computed_rate_echo_round_trip() {
    // A remote echo of a published rate: encode the float32 rate into two
    // registers, read them back, and recover the exact same value.
    let rate: f32 = 170992.77;
    let (hi, lo) = encode_words(rate.to_bits());
    let echoed = f32::from_bits(decode_words(hi, lo));
    assert_eq!(echoed.to_bits(), rate.to_bits());
    assert_eq!(echoed, rate);
}
