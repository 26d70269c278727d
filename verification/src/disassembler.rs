use vstd::prelude::*;

use crate::hexreader::IhexDump;
use crate::instructions::{
    ADCInstruction, ADDInstruction, CALLInstruction, CLIInstruction, EORInstruction,
    INInstruction, JMPInstruction, LDDyInstruction, LDIInstruction, OUTInstruction,
    POPInstruction, PUSHInstruction, RCALLInstruction, RETInstruction, RJMPInstruction,
    STDyInstruction, Opcodes,
};

verus! {

/// A decode failure: the run that meets one is aborted, and the
/// offending raw word (or field value) is carried for diagnostics.
#[derive(Debug, Copy, Clone, PartialEq, Eq, Structural)]
pub enum DecodeError {
    /// No pattern matched the word and it is not the terminator.
    UnknownOpcode(u16),
    /// A recognized addressing form that the decoder does not cover.
    UnsupportedForm(u16),
    /// A register index above 31.
    RegisterOutOfRange(u16),
    /// A displacement above 63.
    DisplacementOutOfRange(u16),
}

/// Outcome of one decode attempt that did not produce an instruction.
#[derive(Debug, Copy, Clone, PartialEq, Eq, Structural)]
pub enum Status {
    /// Clean end of the word stream; not an error.
    EOF,
    /// A fatal decode failure.
    DissasmError(DecodeError),
}

// The opcode patterns, one mask/value pair per form: a word matches
// when its bits under the mask equal the value. Bit 0 is the least
// significant bit.
pub const JMP_MASK: u16 = 0xFE0E;  // 1001 010_ ____ 110_

pub const JMP_VAL: u16 = 0x940C;

pub const EOR_MASK: u16 = 0xFC00;  // 0010 01__ ____ ____

pub const EOR_VAL: u16 = 0x2400;

pub const OUT_MASK: u16 = 0xF800;  // 1011 1___ ____ ____

pub const OUT_VAL: u16 = 0xB800;

pub const LDI_MASK: u16 = 0xF000;  // 1110 ____ ____ ____

pub const LDI_VAL: u16 = 0xE000;

pub const CALL_MASK: u16 = 0xFE0E;  // 1001 010_ ____ 111_

pub const CALL_VAL: u16 = 0x940E;

pub const PUSH_MASK: u16 = 0xFE0F;  // 1001 001_ ____ 1111

pub const PUSH_VAL: u16 = 0x920F;

pub const RCALL_MASK: u16 = 0xF000;  // 1101 ____ ____ ____

pub const RCALL_VAL: u16 = 0xD000;

pub const IN_MASK: u16 = 0xF800;  // 1011 0___ ____ ____

pub const IN_VAL: u16 = 0xB000;

pub const ST_Y_MASK: u16 = 0xFE0F;

pub const ST_Y_PLAIN_VAL: u16 = 0x8208;  // 1000 001_ ____ 1000

pub const ST_Y_POSTINC_VAL: u16 = 0x9209;  // 1001 001_ ____ 1001

pub const ST_Y_PREDEC_VAL: u16 = 0x920A;  // 1001 001_ ____ 1010

pub const STD_Y_MASK: u16 = 0xD208;  // 10_0 __1_ ____ 1___

pub const STD_Y_VAL: u16 = 0x8208;

pub const LD_Y_MASK: u16 = 0xFE0F;

pub const LD_Y_PLAIN_VAL: u16 = 0x8008;  // 1000 000_ ____ 1000

pub const LD_Y_POSTINC_VAL: u16 = 0x9009;  // 1001 000_ ____ 1001

pub const LD_Y_PREDEC_VAL: u16 = 0x900A;  // 1001 000_ ____ 1010

pub const LDD_Y_MASK: u16 = 0xD208;  // 10_0 __0_ ____ 1___

pub const LDD_Y_VAL: u16 = 0x8008;

pub const ADD_MASK: u16 = 0xFC00;  // 0000 11__ ____ ____

pub const ADD_VAL: u16 = 0x0C00;

pub const ADC_MASK: u16 = 0xFC00;  // 0001 11__ ____ ____

pub const ADC_VAL: u16 = 0x1C00;

pub const POP_MASK: u16 = 0xFE0F;  // 1001 000_ ____ 1111

pub const POP_VAL: u16 = 0x900F;

pub const RET_WORD: u16 = 0x9508;  // 1001 0101 0000 1000

pub const CLI_WORD: u16 = 0x94F8;  // 1001 0100 1111 1000

pub const RJMP_MASK: u16 = 0xF000;  // 1100 ____ ____ ____

pub const RJMP_VAL: u16 = 0xC000;

/// The assembled absolute target of a two-word jump or call, as a byte
/// address: five high bits from word bits 4..8, one more from word
/// bit 0, above the sixteen bits of the second word, doubled from word
/// to byte granularity.
pub open spec fn spec_abs_target(w0: u16, w1: u16) -> u32 {
    (((((w0 & 0x01F0) >> 3) | (w0 & 0x0001)) as u32) << 16 | (w1 as u32)) << 1
}

/// The decoded fields of a JMP: the target truncated to the 16-bit
/// program counter.
pub open spec fn spec_jmp(w0: u16, w1: u16) -> JMPInstruction {
    JMPInstruction { address: spec_abs_target(w0, w1) as u16 }
}

/// The decoded fields of an EOR: destination at bits 4..8, source from
/// bits 0..3 with bit 9 as its high bit.
pub open spec fn spec_eor(w: u16) -> EORInstruction {
    EORInstruction {
        rd: ((w & 0x01F0) >> 4) as u8,
        rr: (((w & 0x0200) >> 5) | (w & 0x000F)) as u8,
    }
}

/// The decoded fields of an OUT: register at bits 4..8, I/O address
/// from bits 0..3 with bits 9..10 as high bits.
pub open spec fn spec_out(w: u16) -> OUTInstruction {
    OUTInstruction {
        a: (((w & 0x0600) >> 5) | (w & 0x000F)) as u8,
        rr: ((w & 0x01F0) >> 4) as u8,
    }
}

/// The decoded fields of an LDI: destination 16 plus bits 4..7
/// (immediate loads only reach the upper half of the register file),
/// immediate from bits 0..3 with bits 8..11 as the high nibble.
pub open spec fn spec_ldi(w: u16) -> LDIInstruction {
    LDIInstruction {
        rd: (16 + ((w & 0x00F0) >> 4)) as u8,
        k: (((w & 0x0F00) >> 4) | (w & 0x000F)) as u8,
    }
}

/// The decoded fields of a CALL: the full assembled byte target.
pub open spec fn spec_call(w0: u16, w1: u16) -> CALLInstruction {
    CALLInstruction { k: spec_abs_target(w0, w1) }
}

/// The decoded field of a PUSH: register at bits 4..8.
pub open spec fn spec_push(w: u16) -> PUSHInstruction {
    PUSHInstruction { rr: ((w & 0x01F0) >> 4) as u8 }
}

/// The decoded field of an RCALL: the sign-extended byte displacement,
/// read from the 12-bit field exactly as for a relative jump.
pub open spec fn spec_rcall(w: u16) -> RCALLInstruction {
    RCALLInstruction { k: spec_rel_disp(w) as i16 }
}

/// The decoded fields of an IN: register at bits 4..8, I/O address
/// from bits 0..3 with bits 9..10 as high bits.
pub open spec fn spec_in(w: u16) -> INInstruction {
    INInstruction {
        rd: ((w & 0x01F0) >> 4) as u8,
        a: (((w & 0x0600) >> 5) | (w & 0x000F)) as u8,
    }
}

/// The six-bit displacement of a displaced load/store, reassembled
/// from its three non-adjacent ranges: low three bits at 0..2, middle
/// two at 10..11, high one at 13.
pub open spec fn spec_displacement(w: u16) -> u16 {
    (w & 0x0007) | ((w & 0x0C00) >> 7) | ((w & 0x2000) >> 8)
}

/// The register field of a displaced load/store, at bits 4..8.
pub open spec fn spec_displaced_reg(w: u16) -> u16 {
    (w & 0x01F0) >> 4
}

/// The decoded fields of an STD Y+q.
pub open spec fn spec_stdy(w: u16) -> STDyInstruction {
    STDyInstruction { rr: spec_displaced_reg(w) as u8, q: spec_displacement(w) as u8 }
}

/// The decoded fields of an LDD Rd, Y+q.
pub open spec fn spec_lddy(w: u16) -> LDDyInstruction {
    LDDyInstruction { rd: spec_displaced_reg(w) as u8, q: spec_displacement(w) as u8 }
}

/// The decoded fields of an ADD: destination at bits 4..8, source from
/// bits 0..3 with bit 9 as its high bit.
pub open spec fn spec_add(w: u16) -> ADDInstruction {
    ADDInstruction {
        rd: ((w & 0x01F0) >> 4) as u8,
        rr: ((w & 0x000F) | ((w & 0x0200) >> 5)) as u8,
    }
}

/// The decoded fields of an ADC, laid out as for ADD.
pub open spec fn spec_adc(w: u16) -> ADCInstruction {
    ADCInstruction {
        rd: ((w & 0x01F0) >> 4) as u8,
        rr: ((w & 0x000F) | ((w & 0x0200) >> 5)) as u8,
    }
}

/// The decoded field of a POP: register at bits 4..8.
pub open spec fn spec_pop(w: u16) -> POPInstruction {
    POPInstruction { rd: ((w & 0x01F0) >> 4) as u8 }
}

/// The displacement of a relative jump or call in bytes: the 12-bit
/// field at bits 0..11 read as two's complement (every field value is
/// within the architectural range), doubled from word to byte
/// granularity.
pub open spec fn spec_rel_disp(w: u16) -> int {
    if w & 0x0800 == 0x0800 {
        2 * ((w & 0x0FFF) - 0x1000)
    } else {
        2 * (w & 0x0FFF)
    }
}

/// An EOR-class word built from a register pair by the inverse of the
/// documented field layout: destination into bits 4..8, the source's
/// low four bits into bits 0..3 and its high bit into bit 9.
pub open spec fn spec_encode_eor(rd: u8, rr: u8) -> u16 {
    EOR_VAL | ((rd as u16) << 4) | (((rr as u16) & 0x10) << 5) | ((rr as u16) & 0x0F)
}

/// Law: encoding any register pair below 32 into an EOR-class word and
/// decoding it again recovers the identical pair, and the ordered
/// matcher recognizes the word as that same EOR.
pub proof fn lemma_eor_round_trip(rd: u8, rr: u8)
    requires
        rd < 32,
        rr < 32,
    ensures
        spec_eor(spec_encode_eor(rd, rr)) == (EORInstruction { rd: rd, rr: rr }),
        classify(spec_encode_eor(rd, rr)) == WordClass::OneWord(
            Opcodes::EOR(EORInstruction { rd: rd, rr: rr }),
        ),
{
    let w = spec_encode_eor(rd, rr);
    assert((w & 0x01F0) >> 4 == rd as u16 && ((w & 0x0200) >> 5) | (w & 0x000F) == rr as u16 && w
        & EOR_MASK == EOR_VAL && !(w & JMP_MASK == JMP_VAL)) by (bit_vector)
        requires
            w == EOR_VAL | ((rd as u16) << 4) | (((rr as u16) & 0x10) << 5) | ((rr as u16)
                & 0x0F),
            rd < 32,
            rr < 32,
    ;
}

/// Encodes a register pair into an EOR-class word; decoding the word
/// gives the pair back, and the ordered matcher classifies it as that
/// EOR.
pub fn encode_eor(rd: u8, rr: u8) -> (w: u16)
    requires
        rd < 32,
        rr < 32,
    ensures
        w == spec_encode_eor(rd, rr),
        spec_eor(w) == (EORInstruction { rd: rd, rr: rr }),
        classify(w) == WordClass::OneWord(Opcodes::EOR(EORInstruction { rd: rd, rr: rr })),
{
    let w: u16 = EOR_VAL | ((rd as u16) << 4) | (((rr as u16) & 0x10) << 5) | ((rr as u16)
        & 0x0F);
    proof {
        lemma_eor_round_trip(rd, rr);
    }
    w
}

/// Accepts a register index of at most 31 and rejects anything above:
/// an out-of-range index marks a corrupt encoding and never wraps.
pub fn check_register_index(r: u16) -> (res: Result<u8, DecodeError>)
    ensures
        r <= 31 ==> res == Ok::<u8, DecodeError>(r as u8),
        r > 31 ==> res == Err::<u8, DecodeError>(DecodeError::RegisterOutOfRange(r)),
{
    if r > 31 {
        Err(DecodeError::RegisterOutOfRange(r))
    } else {
        Ok(r as u8)
    }
}

/// Accepts a displacement of at most 63 and rejects anything above:
/// an out-of-range displacement marks a corrupt encoding and never
/// wraps.
pub fn check_displacement(q: u16) -> (res: Result<u8, DecodeError>)
    ensures
        q <= 63 ==> res == Ok::<u8, DecodeError>(q as u8),
        q > 63 ==> res == Err::<u8, DecodeError>(DecodeError::DisplacementOutOfRange(q)),
{
    if q > 63 {
        Err(DecodeError::DisplacementOutOfRange(q))
    } else {
        Ok(q as u8)
    }
}

pub fn decode_jmp(opcode_words: Vec<u16>) -> (r: JMPInstruction)
    requires
        opcode_words@.len() == 2,
    ensures
        r == spec_jmp(opcode_words@[0], opcode_words@[1]),
{
    // Five high target bits from word bits 4..8, shifted to sit just
    // above the sixth one.
    let top_5_bits: u16 = (opcode_words[0] & 0x01F0) >> 3;

    // The sixth high bit, from word bit 0.
    let top_6_bit: u16 = opcode_words[0] & 0x0001;

    // Assemble the word-granular address above the second word, then
    // double it: the program counter is byte-addressed.
    let jmp_addr: u32 = ((((top_5_bits | top_6_bit) as u32) << 16) | (opcode_words[1] as u32))
        << 1;

    JMPInstruction { address: #[verifier::truncate] (jmp_addr as u16) }
}

pub fn decode_eor(opcode_word: u16) -> (r: EORInstruction)
    ensures
        r == spec_eor(opcode_word),
        r.rd <= 31,
        r.rr <= 31,
{
    let rd: u16 = (opcode_word & 0x01F0) >> 4;
    let rr_upper_bit: u16 = (opcode_word & 0x0200) >> 5;
    let rr_lower_bits: u16 = opcode_word & 0x000F;

    proof {
        let w = opcode_word;
        assert((w & 0x01F0) >> 4 <= 31 && (((w & 0x0200) >> 5) | (w & 0x000F)) <= 31)
            by (bit_vector);
    }
    EORInstruction { rd: rd as u8, rr: (rr_upper_bit | rr_lower_bits) as u8 }
}

pub fn decode_out(opcode_word: u16) -> (r: OUTInstruction)
    ensures
        r == spec_out(opcode_word),
        r.rr <= 31,
        r.a <= 63,
{
    let aa_upper: u16 = (opcode_word & 0x0600) >> 5;
    let aa_lower: u16 = opcode_word & 0x000F;
    let rr: u16 = (opcode_word & 0x01F0) >> 4;

    proof {
        let w = opcode_word;
        assert((w & 0x01F0) >> 4 <= 31 && (((w & 0x0600) >> 5) | (w & 0x000F)) <= 63)
            by (bit_vector);
    }
    OUTInstruction { a: (aa_upper | aa_lower) as u8, rr: rr as u8 }
}

pub fn decode_ldi(opcode_word: u16) -> (r: LDIInstruction)
    ensures
        r == spec_ldi(opcode_word),
        16 <= r.rd <= 31,
{
    let k_upper: u16 = (opcode_word & 0x0F00) >> 4;
    let k_lower: u16 = opcode_word & 0x000F;
    let rd: u16 = (opcode_word & 0x00F0) >> 4;

    proof {
        let w = opcode_word;
        assert((w & 0x00F0) >> 4 <= 15 && (((w & 0x0F00) >> 4) | (w & 0x000F)) <= 255)
            by (bit_vector);
    }
    LDIInstruction { rd: (16 + rd) as u8, k: (k_upper | k_lower) as u8 }
}

pub fn decode_call(opcode_words: Vec<u16>) -> (r: CALLInstruction)
    requires
        opcode_words@.len() == 2,
    ensures
        r == spec_call(opcode_words@[0], opcode_words@[1]),
{
    // Five high target bits from word bits 4..8, shifted to sit just
    // above the sixth one.
    let top_5_bits: u16 = (opcode_words[0] & 0x01F0) >> 3;

    // The sixth high bit, from word bit 0.
    let top_6_bit: u16 = opcode_words[0] & 0x0001;

    // Assemble the word-granular address above the second word, then
    // double it: the program counter is byte-addressed.
    let jmp_addr: u32 = ((((top_5_bits | top_6_bit) as u32) << 16) | (opcode_words[1] as u32))
        << 1;

    CALLInstruction { k: jmp_addr }
}

pub fn decode_push(opcode_word: u16) -> (r: PUSHInstruction)
    ensures
        r == spec_push(opcode_word),
        r.rr <= 31,
{
    let rr: u16 = (opcode_word & 0x01F0) >> 4;

    proof {
        let w = opcode_word;
        assert((w & 0x01F0) >> 4 <= 31) by (bit_vector);
    }
    PUSHInstruction { rr: rr as u8 }
}

/// Every 12-bit field is a legal two's-complement displacement, so the
/// decode cannot fail; the result is always even and within the
/// architectural byte range of -4096 to 4094.
pub fn decode_rcall(opcode_word: u16) -> (r: RCALLInstruction)
    ensures
        r == spec_rcall(opcode_word),
        -4096 <= r.k <= 4094,
        r.k % 2 == 0,
{
    let field: u16 = opcode_word & 0x0FFF;

    proof {
        let w = opcode_word;
        assert(w & 0x0FFF <= 0xFFF) by (bit_vector);
        assert(w & 0x0800 == 0x0800 ==> (w & 0x0FFF) >= 0x800) by (bit_vector);
        assert(w & 0x0800 != 0x0800 ==> (w & 0x0FFF) <= 0x7FF) by (bit_vector);
    }

    if opcode_word & 0x0800 == 0x0800 {
        // Negative displacement: widen arithmetically, preserving the
        // sign, rather than reading the masked field as unsigned.
        let magnitude: u16 = 0x1000 - field;
        RCALLInstruction { k: -((2 * magnitude) as i16) }
    } else {
        RCALLInstruction { k: (2 * field) as i16 }
    }
}

pub fn decode_in(opcode_word: u16) -> (r: INInstruction)
    ensures
        r == spec_in(opcode_word),
        r.rd <= 31,
        r.a <= 63,
{
    let upper_a: u16 = (opcode_word & 0x0600) >> 5;
    let lower_a: u16 = opcode_word & 0x000F;
    let rd: u16 = (opcode_word & 0x01F0) >> 4;

    proof {
        let w = opcode_word;
        assert((w & 0x01F0) >> 4 <= 31 && (((w & 0x0600) >> 5) | (w & 0x000F)) <= 63)
            by (bit_vector);
    }
    INInstruction { rd: rd as u8, a: (upper_a | lower_a) as u8 }
}

pub fn decode_stdy(opcode_word: u16) -> (r: Result<STDyInstruction, DecodeError>)
    ensures
        r == Ok::<STDyInstruction, DecodeError>(spec_stdy(opcode_word)),
{
    // Reassemble q from its three bit ranges.
    let q: u16 = (opcode_word & 0x0007) | ((opcode_word & 0x0C00) >> 7) | ((opcode_word & 0x2000)
        >> 8);

    // Extract Rr.
    let rr: u16 = (opcode_word & 0x01F0) >> 4;

    proof {
        let w = opcode_word;
        assert((w & 0x01F0) >> 4 <= 31 && ((w & 0x0007) | ((w & 0x0C00) >> 7) | ((w & 0x2000)
            >> 8)) <= 63) by (bit_vector);
    }

    // Sanity check: 0 <= r <= 31, 0 <= q <= 63.
    let rr_checked: u8 = match check_register_index(rr) {
        Ok(v) => v,
        Err(e) => {
            return Err(e);
        },
    };
    let q_checked: u8 = match check_displacement(q) {
        Ok(v) => v,
        Err(e) => {
            return Err(e);
        },
    };

    Ok(STDyInstruction { rr: rr_checked, q: q_checked })
}

pub fn decode_lddy(opcode_word: u16) -> (r: Result<LDDyInstruction, DecodeError>)
    ensures
        r == Ok::<LDDyInstruction, DecodeError>(spec_lddy(opcode_word)),
{
    // Reassemble q from its three bit ranges.
    let q: u16 = (opcode_word & 0x0007) | ((opcode_word & 0x0C00) >> 7) | ((opcode_word & 0x2000)
        >> 8);

    // Extract Rd.
    let rd: u16 = (opcode_word & 0x01F0) >> 4;

    proof {
        let w = opcode_word;
        assert((w & 0x01F0) >> 4 <= 31 && ((w & 0x0007) | ((w & 0x0C00) >> 7) | ((w & 0x2000)
            >> 8)) <= 63) by (bit_vector);
    }

    // Sanity check: 0 <= d <= 31, 0 <= q <= 63.
    let rd_checked: u8 = match check_register_index(rd) {
        Ok(v) => v,
        Err(e) => {
            return Err(e);
        },
    };
    let q_checked: u8 = match check_displacement(q) {
        Ok(v) => v,
        Err(e) => {
            return Err(e);
        },
    };

    Ok(LDDyInstruction { rd: rd_checked, q: q_checked })
}

pub fn decode_add(opcode_word: u16) -> (r: Result<ADDInstruction, DecodeError>)
    ensures
        r == Ok::<ADDInstruction, DecodeError>(spec_add(opcode_word)),
{
    // Extract Rr, its high bit sitting at word bit 9.
    let rr: u16 = (opcode_word & 0x000F) | ((opcode_word & 0x0200) >> 5);

    // Extract Rd.
    let rd: u16 = (opcode_word & 0x01F0) >> 4;

    proof {
        let w = opcode_word;
        assert((w & 0x01F0) >> 4 <= 31 && ((w & 0x000F) | ((w & 0x0200) >> 5)) <= 31)
            by (bit_vector);
    }

    // Sanity checks: 0 <= d <= 31, 0 <= r <= 31.
    let rd_checked: u8 = match check_register_index(rd) {
        Ok(v) => v,
        Err(e) => {
            return Err(e);
        },
    };
    let rr_checked: u8 = match check_register_index(rr) {
        Ok(v) => v,
        Err(e) => {
            return Err(e);
        },
    };

    Ok(ADDInstruction { rd: rd_checked, rr: rr_checked })
}

pub fn decode_adc(opcode_word: u16) -> (r: Result<ADCInstruction, DecodeError>)
    ensures
        r == Ok::<ADCInstruction, DecodeError>(spec_adc(opcode_word)),
{
    // Extract Rr, its high bit sitting at word bit 9.
    let rr: u16 = (opcode_word & 0x000F) | ((opcode_word & 0x0200) >> 5);

    // Extract Rd.
    let rd: u16 = (opcode_word & 0x01F0) >> 4;

    proof {
        let w = opcode_word;
        assert((w & 0x01F0) >> 4 <= 31 && ((w & 0x000F) | ((w & 0x0200) >> 5)) <= 31)
            by (bit_vector);
    }

    // Sanity checks: 0 <= d <= 31, 0 <= r <= 31.
    let rd_checked: u8 = match check_register_index(rd) {
        Ok(v) => v,
        Err(e) => {
            return Err(e);
        },
    };
    let rr_checked: u8 = match check_register_index(rr) {
        Ok(v) => v,
        Err(e) => {
            return Err(e);
        },
    };

    Ok(ADCInstruction { rd: rd_checked, rr: rr_checked })
}

pub fn decode_pop(opcode_word: u16) -> (r: Result<POPInstruction, DecodeError>)
    ensures
        r == Ok::<POPInstruction, DecodeError>(spec_pop(opcode_word)),
{
    // Extract Rd.
    let rd: u16 = (opcode_word & 0x01F0) >> 4;

    proof {
        let w = opcode_word;
        assert((w & 0x01F0) >> 4 <= 31) by (bit_vector);
    }

    // Sanity check.
    let rd_checked: u8 = match check_register_index(rd) {
        Ok(v) => v,
        Err(e) => {
            return Err(e);
        },
    };

    Ok(POPInstruction { rd: rd_checked })
}

/// Every 12-bit field is a legal two's-complement displacement, so the
/// decode cannot fail; the result is always even and within the
/// architectural byte range of -4096 to 4094.
pub fn decode_rjmp(opcode_word: u16) -> (r: RJMPInstruction)
    ensures
        r.k == spec_rel_disp(opcode_word),
        -4096 <= r.k <= 4094,
        r.k % 2 == 0,
{
    let field: u16 = opcode_word & 0x0FFF;

    proof {
        let w = opcode_word;
        assert(w & 0x0FFF <= 0xFFF) by (bit_vector);
        assert(w & 0x0800 == 0x0800 ==> (w & 0x0FFF) >= 0x800) by (bit_vector);
        assert(w & 0x0800 != 0x0800 ==> (w & 0x0FFF) <= 0x7FF) by (bit_vector);
    }

    if opcode_word & 0x0800 == 0x0800 {
        // Negative displacement: widen arithmetically, preserving the
        // sign, rather than reading the masked field as unsigned.
        let magnitude: u16 = 0x1000 - field;
        RJMPInstruction { k: -((2 * magnitude) as i16) }
    } else {
        RJMPInstruction { k: (2 * field) as i16 }
    }
}

/// What the ordered pattern tests say about one raw word: the decoded
/// one-word instruction, a two-word form whose second word is still to
/// be fetched, a recognized but uncovered addressing form, the
/// end-of-stream terminator, or no match at all.
pub enum WordClass {
    OneWord(Opcodes),
    TwoWordJmp,
    TwoWordCall,
    Unsupported,
    Terminator,
    Unknown,
}

/// The ordered matcher: the first pattern that matches wins, so a form
/// with a required trailing nibble is tested before a more general
/// form with wildcards in the same position.
pub open spec fn classify(w: u16) -> WordClass {
    if w & JMP_MASK == JMP_VAL {
        WordClass::TwoWordJmp
    } else if w & EOR_MASK == EOR_VAL {
        WordClass::OneWord(Opcodes::EOR(spec_eor(w)))
    } else if w & OUT_MASK == OUT_VAL {
        WordClass::OneWord(Opcodes::OUT(spec_out(w)))
    } else if w & LDI_MASK == LDI_VAL {
        WordClass::OneWord(Opcodes::LDI(spec_ldi(w)))
    } else if w & CALL_MASK == CALL_VAL {
        WordClass::TwoWordCall
    } else if w & PUSH_MASK == PUSH_VAL {
        WordClass::OneWord(Opcodes::PUSH(spec_push(w)))
    } else if w & RCALL_MASK == RCALL_VAL {
        WordClass::OneWord(Opcodes::RCALL(spec_rcall(w)))
    } else if w & IN_MASK == IN_VAL {
        WordClass::OneWord(Opcodes::IN(spec_in(w)))
    } else if w & ST_Y_MASK == ST_Y_PLAIN_VAL || w & ST_Y_MASK == ST_Y_POSTINC_VAL || w
        & ST_Y_MASK == ST_Y_PREDEC_VAL {
        WordClass::Unsupported
    } else if w & STD_Y_MASK == STD_Y_VAL {
        WordClass::OneWord(Opcodes::STDy(spec_stdy(w)))
    } else if w & LD_Y_MASK == LD_Y_PLAIN_VAL || w & LD_Y_MASK == LD_Y_POSTINC_VAL || w
        & LD_Y_MASK == LD_Y_PREDEC_VAL {
        WordClass::Unsupported
    } else if w & LDD_Y_MASK == LDD_Y_VAL {
        WordClass::OneWord(Opcodes::LDDy(spec_lddy(w)))
    } else if w & ADD_MASK == ADD_VAL {
        WordClass::OneWord(Opcodes::ADD(spec_add(w)))
    } else if w & ADC_MASK == ADC_VAL {
        WordClass::OneWord(Opcodes::ADC(spec_adc(w)))
    } else if w & POP_MASK == POP_VAL {
        WordClass::OneWord(Opcodes::POP(spec_pop(w)))
    } else if w == RET_WORD {
        WordClass::OneWord(Opcodes::RET(RETInstruction {  }))
    } else if w == CLI_WORD {
        WordClass::OneWord(Opcodes::CLI(CLIInstruction {  }))
    } else if w & RJMP_MASK == RJMP_VAL {
        WordClass::OneWord(Opcodes::RJMP(RJMPInstruction { k: spec_rel_disp(w) as i16 }))
    } else if w == 0 {
        WordClass::Terminator
    } else {
        WordClass::Unknown
    }
}

/// Matches the next raw word against the ordered patterns and decodes
/// its operand fields; a two-word form fetches its second word at
/// once, and running out of input there is a clean end of stream, not
/// a malformed input. A zero word at top level is the end-of-stream
/// terminator; any other unmatched word is a decode failure carrying
/// the word.
pub fn match_and_decode(ihex: &mut IhexDump) -> (r: Result<Opcodes, Status>)
    ensures
        final(ihex).words() == old(ihex).words(),
        old(ihex).wf() ==> final(ihex).wf(),
        old(ihex).pos() >= old(ihex).words().len() ==> r == Err::<Opcodes, Status>(Status::EOF)
            && final(ihex).pos() == old(ihex).pos(),
        old(ihex).pos() < old(ihex).words().len() ==> {
            let w = old(ihex).words()[old(ihex).pos()];
            match classify(w) {
                WordClass::OneWord(op) => r == Ok::<Opcodes, Status>(op) && final(ihex).pos()
                    == old(ihex).pos() + 1,
                WordClass::TwoWordJmp => {
                    if old(ihex).pos() + 1 < old(ihex).words().len() {
                        &&& r == Ok::<Opcodes, Status>(
                            Opcodes::JMP(spec_jmp(w, old(ihex).words()[old(ihex).pos() + 1])),
                        )
                        &&& final(ihex).pos() == old(ihex).pos() + 2
                    } else {
                        r == Err::<Opcodes, Status>(Status::EOF) && final(ihex).pos() == old(ihex).pos() + 1
                    }
                },
                WordClass::TwoWordCall => {
                    if old(ihex).pos() + 1 < old(ihex).words().len() {
                        &&& r == Ok::<Opcodes, Status>(
                            Opcodes::CALL(spec_call(w, old(ihex).words()[old(ihex).pos() + 1])),
                        )
                        &&& final(ihex).pos() == old(ihex).pos() + 2
                    } else {
                        r == Err::<Opcodes, Status>(Status::EOF) && final(ihex).pos() == old(ihex).pos() + 1
                    }
                },
                WordClass::Unsupported => r == Err::<Opcodes, Status>(
                    Status::DissasmError(DecodeError::UnsupportedForm(w)),
                ) && final(ihex).pos() == old(ihex).pos() + 1,
                WordClass::Terminator => r == Err::<Opcodes, Status>(Status::EOF) && final(ihex).pos() == old(ihex).pos() + 1,
                WordClass::Unknown => r == Err::<Opcodes, Status>(
                    Status::DissasmError(DecodeError::UnknownOpcode(w)),
                ) && final(ihex).pos() == old(ihex).pos() + 1,
            }
        },
{
    let raw_opcode: u16 = match ihex.get_next_word() {
        Ok(word) => word,
        Err(_) => {
            return Err(Status::EOF);
        },
    };

    // JMP
    if raw_opcode & JMP_MASK == JMP_VAL {
        let word2: u16 = match ihex.get_next_word() {
            Ok(word) => word,
            Err(_) => {
                return Err(Status::EOF);
            },
        };

        Ok(Opcodes::JMP(decode_jmp(vec![raw_opcode, word2])))
    }
    // EOR
    else if raw_opcode & EOR_MASK == EOR_VAL {
        Ok(Opcodes::EOR(decode_eor(raw_opcode)))
    }
    // OUT
    else if raw_opcode & OUT_MASK == OUT_VAL {
        Ok(Opcodes::OUT(decode_out(raw_opcode)))
    }
    // LDI
    else if raw_opcode & LDI_MASK == LDI_VAL {
        Ok(Opcodes::LDI(decode_ldi(raw_opcode)))
    }
    // CALL
    else if raw_opcode & CALL_MASK == CALL_VAL {
        let word2: u16 = match ihex.get_next_word() {
            Ok(word) => word,
            Err(_) => {
                return Err(Status::EOF);
            },
        };

        Ok(Opcodes::CALL(decode_call(vec![raw_opcode, word2])))
    }
    // PUSH
    else if raw_opcode & PUSH_MASK == PUSH_VAL {
        Ok(Opcodes::PUSH(decode_push(raw_opcode)))
    }
    // RCALL
    else if raw_opcode & RCALL_MASK == RCALL_VAL {
        Ok(Opcodes::RCALL(decode_rcall(raw_opcode)))
    }
    // IN
    else if raw_opcode & IN_MASK == IN_VAL {
        Ok(Opcodes::IN(decode_in(raw_opcode)))
    }
    // ST Y, with the pointer unchanged, post-incremented or
    // pre-decremented: recognized forms that the decoder does not
    // cover yet.
    else if raw_opcode & ST_Y_MASK == ST_Y_PLAIN_VAL || raw_opcode & ST_Y_MASK
        == ST_Y_POSTINC_VAL || raw_opcode & ST_Y_MASK == ST_Y_PREDEC_VAL {
        Err(Status::DissasmError(DecodeError::UnsupportedForm(raw_opcode)))
    }
    // STD Y+q, with a displacement
    else if raw_opcode & STD_Y_MASK == STD_Y_VAL {
        match decode_stdy(raw_opcode) {
            Ok(instruction) => Ok(Opcodes::STDy(instruction)),
            Err(e) => Err(Status::DissasmError(e)),
        }
    }
    // LD Y, with the pointer unchanged, post-incremented or
    // pre-decremented: recognized forms that the decoder does not
    // cover yet.
    else if raw_opcode & LD_Y_MASK == LD_Y_PLAIN_VAL || raw_opcode & LD_Y_MASK
        == LD_Y_POSTINC_VAL || raw_opcode & LD_Y_MASK == LD_Y_PREDEC_VAL {
        Err(Status::DissasmError(DecodeError::UnsupportedForm(raw_opcode)))
    }
    // LDD Rd, Y+q
    else if raw_opcode & LDD_Y_MASK == LDD_Y_VAL {
        match decode_lddy(raw_opcode) {
            Ok(instruction) => Ok(Opcodes::LDDy(instruction)),
            Err(e) => Err(Status::DissasmError(e)),
        }
    }
    // ADD
    else if raw_opcode & ADD_MASK == ADD_VAL {
        match decode_add(raw_opcode) {
            Ok(instruction) => Ok(Opcodes::ADD(instruction)),
            Err(e) => Err(Status::DissasmError(e)),
        }
    }
    // ADC
    else if raw_opcode & ADC_MASK == ADC_VAL {
        match decode_adc(raw_opcode) {
            Ok(instruction) => Ok(Opcodes::ADC(instruction)),
            Err(e) => Err(Status::DissasmError(e)),
        }
    }
    // POP
    else if raw_opcode & POP_MASK == POP_VAL {
        match decode_pop(raw_opcode) {
            Ok(instruction) => Ok(Opcodes::POP(instruction)),
            Err(e) => Err(Status::DissasmError(e)),
        }
    }
    // RET
    else if raw_opcode == RET_WORD {
        Ok(Opcodes::RET(RETInstruction {  }))
    }
    // CLI
    else if raw_opcode == CLI_WORD {
        Ok(Opcodes::CLI(CLIInstruction {  }))
    }
    // RJMP
    else if raw_opcode & RJMP_MASK == RJMP_VAL {
        Ok(Opcodes::RJMP(decode_rjmp(raw_opcode)))
    }
    // A zero word at top level is the end-of-stream marker.
    else if raw_opcode == 0 {
        Err(Status::EOF)
    } else {
        Err(Status::DissasmError(DecodeError::UnknownOpcode(raw_opcode)))
    }
}

/// The whole disassembly of `words` from word index `i` on: the byte
/// offset and decoded value of each instruction, in order, or the
/// first decode failure. Running out of words, meeting the terminator,
/// or losing the second word of a two-word form all end the sequence
/// cleanly.
pub open spec fn spec_disasm(words: Seq<u16>, i: nat) -> Result<Seq<(int, Opcodes)>, DecodeError>
    decreases words.len() - i,
{
    if i >= words.len() {
        Ok(Seq::empty())
    } else {
        let w = words[i as int];
        match classify(w) {
            WordClass::OneWord(op) => match spec_disasm(words, (i + 1) as nat) {
                Ok(rest) => Ok(seq![(2 * i as int, op)] + rest),
                Err(e) => Err(e),
            },
            WordClass::TwoWordJmp => {
                if i + 1 >= words.len() {
                    Ok(Seq::empty())
                } else {
                    match spec_disasm(words, (i + 2) as nat) {
                        Ok(rest) => Ok(
                            seq![(2 * i as int, Opcodes::JMP(spec_jmp(w, words[i + 1 as int])))] + rest,
                        ),
                        Err(e) => Err(e),
                    }
                }
            },
            WordClass::TwoWordCall => {
                if i + 1 >= words.len() {
                    Ok(Seq::empty())
                } else {
                    match spec_disasm(words, (i + 2) as nat) {
                        Ok(rest) => Ok(
                            seq![(2 * i as int, Opcodes::CALL(spec_call(w, words[i + 1 as int])))] + rest,
                        ),
                        Err(e) => Err(e),
                    }
                }
            },
            WordClass::Unsupported => Err(DecodeError::UnsupportedForm(w)),
            WordClass::Terminator => Ok(Seq::empty()),
            WordClass::Unknown => Err(DecodeError::UnknownOpcode(w)),
        }
    }
}

/// Zips byte offsets and instructions into the pair sequence that
/// `spec_disasm` speaks of.
pub open spec fn pairs_of(offsets: Seq<usize>, ops: Seq<Opcodes>) -> Seq<(int, Opcodes)>
    recommends
        offsets.len() == ops.len(),
{
    Seq::new(ops.len(), |j: int| (offsets[j] as int, ops[j]))
}

/// Prepends already-decoded pairs to the outcome of the rest of a
/// disassembly.
spec fn disasm_concat(
    front: Seq<(int, Opcodes)>,
    rest: Result<Seq<(int, Opcodes)>, DecodeError>,
) -> Result<Seq<(int, Opcodes)>, DecodeError> {
    match rest {
        Ok(tail) => Ok(front + tail),
        Err(e) => Err(e),
    }
}

/// Walks the whole word stream from the cursor on, decoding every
/// instruction in sequence and recording the byte offset at which each
/// began (widths vary, so offsets are not a simple stride). Ends
/// cleanly at end of stream; any other decode failure aborts the whole
/// run with no partial output.
#[verifier::loop_isolation(false)]
pub fn dissasm_ihex(ihex: IhexDump) -> (r: Result<(Vec<Opcodes>, Vec<usize>), DecodeError>)
    requires
        ihex.wf(),
        ihex.words().len() * 2 <= usize::MAX,
    ensures
        match r {
            Ok(pair) => {
                &&& pair.0@.len() == pair.1@.len()
                &&& spec_disasm(ihex.words(), ihex.pos() as nat) == Ok::<
                    Seq<(int, Opcodes)>,
                    DecodeError,
                >(pairs_of(pair.1@, pair.0@))
            },
            Err(e) => spec_disasm(ihex.words(), ihex.pos() as nat) == Err::<
                Seq<(int, Opcodes)>,
                DecodeError,
            >(e),
        },
{
    let mut cursor = ihex;
    let ghost orig = cursor.words();
    let ghost start: nat = cursor.pos() as nat;

    let mut dissasm: Vec<Opcodes> = Vec::new();
    let mut flash_index: Vec<usize> = Vec::new();

    loop
        invariant
            cursor.wf(),
            cursor.words() == orig,
            orig.len() * 2 <= usize::MAX,
            dissasm@.len() == flash_index@.len(),
            spec_disasm(orig, start) == disasm_concat(
                pairs_of(flash_index@, dissasm@),
                spec_disasm(orig, cursor.pos() as nat),
            ),
        decreases orig.len() - cursor.pos(),
    {
        let ghost p: nat = cursor.pos() as nat;
        let ghost old_fi = flash_index@;
        let ghost old_ds = dissasm@;

        let idx: usize = cursor.getIndex();
        match match_and_decode(&mut cursor) {
            Ok(decoded) => {
                flash_index.push(idx);
                dissasm.push(decoded);
                proof {
                    let x = (idx as int, decoded);
                    let pnext: nat = cursor.pos() as nat;
                    assert(pairs_of(flash_index@, dissasm@) =~= pairs_of(old_fi, old_ds)
                        + seq![x]);
                    assert(spec_disasm(orig, p) == (match spec_disasm(orig, pnext) {
                        Ok(rest) => Ok::<Seq<(int, Opcodes)>, DecodeError>(seq![x] + rest),
                        Err(e) => Err::<Seq<(int, Opcodes)>, DecodeError>(e),
                    }));
                    match spec_disasm(orig, pnext) {
                        Ok(rest) => {
                            assert(pairs_of(old_fi, old_ds) + (seq![x] + rest) =~= (pairs_of(
                                old_fi,
                                old_ds,
                            ) + seq![x]) + rest);
                        },
                        Err(e) => {},
                    }
                }
            },
            Err(err) => {
                match err {
                    Status::EOF => {
                        proof {
                            assert(spec_disasm(orig, p) == Ok::<
                                Seq<(int, Opcodes)>,
                                DecodeError,
                            >(Seq::empty()));
                            assert(pairs_of(flash_index@, dissasm@) + Seq::<
                                (int, Opcodes),
                            >::empty() =~= pairs_of(flash_index@, dissasm@));
                        }
                        return Ok((dissasm, flash_index));
                    },
                    Status::DissasmError(e) => {
                        return Err(e);
                    },
                }
            },
        }
    }
}

} // verus!
