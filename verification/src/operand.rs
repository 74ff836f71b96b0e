//! Source and destination operands of scalar and vector instructions.
use vstd::prelude::*;

verus! {

/// An operand as named by an instruction field.
///
/// The inline floating-point constants are held as the IEEE-754 bit pattern
/// of the `f32` they stand for.
#[derive(Debug, Clone, Copy, PartialEq, Eq, Structural)]
pub enum Operand {
    /// Scalar register 0 - 105.
    Sgpr(u8),
    /// Code 106.
    VccLo,
    /// Code 107.
    VccHi,
    /// Trap temporaries, codes 108 - 123.
    Ttmp(u8),
    /// Code 124.
    M0,
    /// Code 125.
    Null,
    /// Code 126.
    ExecLo,
    /// Code 127.
    ExecHi,
    /// Inline constant 0, code 128.
    Zero,
    /// Inline integers 1..=64 (codes 129 - 192) and -1..=-16 (codes 193 - 208).
    Int(i8),
    /// Code 235.
    SharedBase,
    /// Code 236.
    SharedLimit,
    /// Code 237.
    PrivateBase,
    /// Code 238.
    PrivateLimit,
    /// Code 239.
    PopsExistingWaveId,
    /// Inline float constants, codes 240 - 248, as `f32` bit pattern.
    InlineFloat(u32),
    /// Code 251.
    Vccz,
    /// Code 252.
    Execz,
    /// Code 253.
    Scc,
    /// Code 255: the value is the dword that follows the instruction word.
    LiteralPending,
    /// A literal dword, filled in by the instruction decoders.
    Literal(u32),
    /// Vector register, codes 256 - 511.
    Vgpr(u16),
}

/// The codes that name an operand; every other code is rejected.
pub open spec fn is_operand_code(value: u32) -> bool {
    ||| value <= 208
    ||| 235 <= value <= 248
    ||| 251 <= value <= 253
    ||| value == 255
    ||| 256 <= value <= 511
}

/// The bit pattern of the `f32` that inline constant `value` (240 - 248) stands for:
/// 0.5, -0.5, 1.0, -1.0, 2.0, -2.0, 4.0, -4.0 and 1/(2*pi).
pub open spec fn inline_float_bits(value: u32) -> u32 {
    if value == 240 {
        0x3F00_0000
    } else if value == 241 {
        0xBF00_0000
    } else if value == 242 {
        0x3F80_0000
    } else if value == 243 {
        0xBF80_0000
    } else if value == 244 {
        0x4000_0000
    } else if value == 245 {
        0xC000_0000
    } else if value == 246 {
        0x4080_0000
    } else if value == 247 {
        0xC080_0000
    } else if value == 248 {
        0x3E22_F983
    } else {
        0
    }
}

/// The operand that code `value` names.
pub open spec fn operand_of(value: u32) -> Operand {
    if value <= 105 {
        Operand::Sgpr(value as u8)
    } else if value == 106 {
        Operand::VccLo
    } else if value == 107 {
        Operand::VccHi
    } else if value <= 123 {
        Operand::Ttmp((value - 108) as u8)
    } else if value == 124 {
        Operand::M0
    } else if value == 125 {
        Operand::Null
    } else if value == 126 {
        Operand::ExecLo
    } else if value == 127 {
        Operand::ExecHi
    } else if value == 128 {
        Operand::Zero
    } else if value <= 192 {
        Operand::Int((value - 128) as i8)
    } else if value <= 208 {
        Operand::Int((192 - value) as i8)
    } else if value == 235 {
        Operand::SharedBase
    } else if value == 236 {
        Operand::SharedLimit
    } else if value == 237 {
        Operand::PrivateBase
    } else if value == 238 {
        Operand::PrivateLimit
    } else if value == 239 {
        Operand::PopsExistingWaveId
    } else if 240 <= value <= 248 {
        Operand::InlineFloat(inline_float_bits(value))
    } else if value == 251 {
        Operand::Vccz
    } else if value == 252 {
        Operand::Execz
    } else if value == 253 {
        Operand::Scc
    } else if value == 255 {
        Operand::LiteralPending
    } else {
        Operand::Vgpr((value - 256) as u16)
    }
}

impl Operand {
    /// The operand named by code `value`.
    pub fn decode(value: u32) -> (r: Self)
        requires
            is_operand_code(value),
        ensures
            r == operand_of(value),
    {
        match value {
            0..=105 => Operand::Sgpr(value as u8),
            106 => Operand::VccLo,
            107 => Operand::VccHi,
            108..=123 => Operand::Ttmp((value - 108) as u8),
            124 => Operand::M0,
            125 => Operand::Null,
            126 => Operand::ExecLo,
            127 => Operand::ExecHi,
            128 => Operand::Zero,
            129..=192 => Operand::Int((value - 128) as i8),
            193..=208 => Operand::Int(192_i32.wrapping_sub(value as i32) as i8),
            235 => Operand::SharedBase,
            236 => Operand::SharedLimit,
            237 => Operand::PrivateBase,
            238 => Operand::PrivateLimit,
            239 => Operand::PopsExistingWaveId,
            240..=248 => Operand::InlineFloat(Self::decode_inline_float(value)),
            251 => Operand::Vccz,
            252 => Operand::Execz,
            253 => Operand::Scc,
            255 => Operand::LiteralPending,
            _ => Operand::Vgpr((value - 256) as u16),
        }
    }

    /// The `f32` bit pattern of inline constant `value`; 0 outside 240 - 248.
    fn decode_inline_float(value: u32) -> (r: u32)
        ensures
            r == inline_float_bits(value),
    {
        match value {
            240 => 0x3F00_0000,
            241 => 0xBF00_0000,
            242 => 0x3F80_0000,
            243 => 0xBF80_0000,
            244 => 0x4000_0000,
            245 => 0xC000_0000,
            246 => 0x4080_0000,
            247 => 0xC080_0000,
            248 => 0x3E22_F983,
            _ => 0,
        }
    }
}

} // verus!

verus! {

/// `op`, with a pending literal replaced by the literal dword `lit`.
pub open spec fn with_literal(op: Operand, lit: u32) -> Operand {
    if op == Operand::LiteralPending {
        Operand::Literal(lit)
    } else {
        op
    }
}

/// The inline integers run from -16 to 64 without 0 (which has its own code),
/// the scalar registers from 0 to 105 and the vector registers from 0 to 255;
/// no code names a literal directly.
pub proof fn lemma_operand_ranges(value: u32)
    requires
        is_operand_code(value),
    ensures
        operand_of(value) matches Operand::Int(k) ==> -16 <= k <= 64 && k != 0,
        operand_of(value) matches Operand::Sgpr(idx) ==> idx <= 105,
        operand_of(value) matches Operand::Vgpr(idx) ==> idx <= 255,
        operand_of(value) matches Operand::Ttmp(idx) ==> idx <= 15,
        !(operand_of(value) is Literal),
{
}

/// Each operand names the code it came from: registers by their index from
/// the start of their range, inline integers 1..=64 from 129 and -1..=-16
/// from 193 on; so no two codes name the same operand.
pub proof fn lemma_operand_codes(value: u32, other: u32)
    requires
        is_operand_code(value),
        is_operand_code(other),
    ensures
        operand_of(value) matches Operand::Sgpr(idx) ==> value == idx,
        operand_of(value) matches Operand::Ttmp(idx) ==> value == 108 + idx,
        operand_of(value) matches Operand::Vgpr(idx) ==> value == 256 + idx,
        operand_of(value) matches Operand::Int(k) ==> value == if k > 0 {
            128 + k
        } else {
            192 - k
        },
        operand_of(value) == Operand::Zero ==> value == 128,
        operand_of(value) == Operand::LiteralPending ==> value == 255,
        operand_of(value) matches Operand::InlineFloat(_) ==> 240 <= value <= 248,
        operand_of(value) == operand_of(other) ==> value == other,
{
}

} // verus!
