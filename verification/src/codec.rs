//! Register codec: bit-exact packing of a 32-bit pattern into two 16-bit
//! register words (big-endian word order) and back, plus decoding of the
//! twelve-register input block into the six measured quantities.

use vstd::prelude::*;

verus! {

/// The 32-bit pattern carried by a big-endian pair of register words:
/// `hi` holds the upper 16 bits, `lo` the lower 16 bits.
pub open spec fn word_pair(hi: u16, lo: u16) -> u32 {
    ((hi as u32) << 16) | (lo as u32)
}

/// Splits a 32-bit pattern into its big-endian register word pair.
pub fn encode_words(bits: u32) -> (r: (u16, u16))
    ensures
        r.0 == bits >> 16,
        r.1 == bits & 0xFFFF,
        word_pair(r.0, r.1) == bits,
{
    let hi: u16 = (bits >> 16) as u16;
    let lo: u16 = (bits & 0xFFFF) as u16;
    proof {
        assert((bits >> 16) as u16 == bits >> 16) by (bit_vector);
        assert((bits & 0xFFFF) as u16 == bits & 0xFFFF) by (bit_vector);
        assert(((((bits >> 16) as u16) as u32) << 16) | (((bits & 0xFFFF) as u16) as u32)
            == bits) by (bit_vector);
    }
    (hi, lo)
}

/// Rebuilds the 32-bit pattern from its big-endian register word pair.
pub fn decode_words(hi: u16, lo: u16) -> (r: u32)
    ensures
        r == word_pair(hi, lo),
{
    ((hi as u32) << 16) | (lo as u32)
}

/// Decoding the pair produced by encoding gives back the original
/// pattern bit for bit, for every 32-bit pattern.
pub proof fn lemma_words_round_trip(bits: u32)
    ensures
        word_pair((bits >> 16) as u16, (bits & 0xFFFF) as u16) == bits,
{
    assert(((((bits >> 16) as u16) as u32) << 16) | (((bits & 0xFFFF) as u16) as u32)
        == bits) by (bit_vector);
}

/// Encoding the pattern decoded from any word pair gives back the same
/// two words: the codec loses nothing in either direction.
pub proof fn lemma_pair_round_trip(hi: u16, lo: u16)
    ensures
        word_pair(hi, lo) >> 16 == hi,
        word_pair(hi, lo) & 0xFFFF == lo,
{
    assert((((hi as u32) << 16) | (lo as u32)) >> 16 == hi) by (bit_vector);
    assert((((hi as u32) << 16) | (lo as u32)) & 0xFFFF == lo) by (bit_vector);
}

/// The six measured quantities of one acquisition, as raw 32-bit patterns
/// in the fixed transport order.
#[derive(Clone, Copy, PartialEq, Eq, Structural, Debug)]
pub struct MeasuredInput {
    pub pressure_bits: u32,
    pub temperature_bits: u32,
    pub differential_bits: u32,
    pub sg_bits: u32,
    pub orifice_bits: u32,
    pub bore_bits: u32,
}

/// A fault in the register transport that the codec itself can detect.
#[derive(Clone, Copy, PartialEq, Eq, Structural, Debug)]
pub enum TransportError {
    /// The register block did not hold exactly the expected number of words.
    WrongRegisterCount { expected: usize, got: usize },
}

/// Interprets a block of twelve registers as six big-endian word pairs in
/// the fixed order pressure, temperature, differential, specific gravity,
/// orifice diameter, bore diameter.  Any other block length is a transport
/// error: a short read is reported, never zero-padded.
pub fn decode_input_block(regs: &Vec<u16>) -> (r: Result<MeasuredInput, TransportError>)
    ensures
        r is Ok <==> regs@.len() == 12,
        r matches Ok(m) ==> {
            &&& m.pressure_bits == word_pair(regs@[0], regs@[1])
            &&& m.temperature_bits == word_pair(regs@[2], regs@[3])
            &&& m.differential_bits == word_pair(regs@[4], regs@[5])
            &&& m.sg_bits == word_pair(regs@[6], regs@[7])
            &&& m.orifice_bits == word_pair(regs@[8], regs@[9])
            &&& m.bore_bits == word_pair(regs@[10], regs@[11])
        },
        regs@.len() != 12 ==> r == Err::<MeasuredInput, TransportError>(
            TransportError::WrongRegisterCount { expected: 12, got: regs@.len() as usize },
        ),
{
    if regs.len() != 12 {
        return Err(TransportError::WrongRegisterCount { expected: 12, got: regs.len() });
    }
    Ok(MeasuredInput {
        pressure_bits: decode_words(regs[0], regs[1]),
        temperature_bits: decode_words(regs[2], regs[3]),
        differential_bits: decode_words(regs[4], regs[5]),
        sg_bits: decode_words(regs[6], regs[7]),
        orifice_bits: decode_words(regs[8], regs[9]),
        bore_bits: decode_words(regs[10], regs[11]),
    })
}

} // verus!
