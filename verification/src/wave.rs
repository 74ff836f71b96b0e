//! The state of one wave: program counter, scalar registers and SCC.
use vstd::prelude::*;
use crate::operand::Operand;

verus! {

/// The number of scalar registers.
pub const SGPR_COUNT: usize = 106;

pub struct Wave {
    pub pc: usize,
    pub sgpr: [u32; 106],
    pub scc: bool,
}

/// The mathematical state of a wave.
pub struct WaveState {
    pub pc: int,
    pub sgpr: Seq<u32>,
    pub scc: bool,
}

impl View for Wave {
    type V = WaveState;

    open spec fn view(&self) -> WaveState {
        WaveState { pc: self.pc as int, sgpr: self.sgpr@, scc: self.scc }
    }
}

/// The 32-bit two's complement pattern of `k`.
pub open spec fn bits32_of(k: int) -> u32 {
    if k >= 0 {
        k as u32
    } else {
        (k + 0x1_0000_0000) as u32
    }
}

/// The 64-bit two's complement pattern of `k`.
pub open spec fn bits64_of(k: int) -> u64 {
    if k >= 0 {
        k as u64
    } else {
        (k + 0x1_0000_0000_0000_0000) as u64
    }
}

/// The value of a 32-bit pattern read as a two's complement number.
pub open spec fn signed32(x: u32) -> int {
    if x < 0x8000_0000 {
        x as int
    } else {
        x - 0x1_0000_0000
    }
}

/// The operands that can be read as 32-bit values.
pub open spec fn readable(op: Operand) -> bool {
    match op {
        Operand::Zero | Operand::Int(_) | Operand::Literal(_) => true,
        Operand::Sgpr(idx) => idx < SGPR_COUNT,
        _ => false,
    }
}

/// The operands that can be read as 64-bit values; a register must have a
/// successor for the high half.
pub open spec fn readable64(op: Operand) -> bool {
    match op {
        Operand::Zero | Operand::Int(_) | Operand::Literal(_) => true,
        Operand::Sgpr(idx) => idx + 1 < SGPR_COUNT,
        _ => false,
    }
}

/// The operands that can be written.
pub open spec fn writable(op: Operand) -> bool {
    match op {
        Operand::Sgpr(idx) => idx < SGPR_COUNT,
        _ => false,
    }
}

impl WaveState {
    /// The 32-bit value of operand `op`.
    pub open spec fn read(self, op: Operand) -> u32 {
        match op {
            Operand::Zero => 0,
            Operand::Int(k) => bits32_of(k as int),
            Operand::Sgpr(idx) => self.sgpr[idx as int],
            Operand::Literal(lit) => lit,
            _ => 0,
        }
    }

    /// The 64-bit value of operand `op`: a register pair with the low half in
    /// the named register, a sign-extended inline integer or literal.
    pub open spec fn read64(self, op: Operand) -> u64 {
        match op {
            Operand::Sgpr(idx) => (self.sgpr[idx + 1] * 0x1_0000_0000 + self.sgpr[idx as int]) as u64,
            Operand::Zero => 0,
            Operand::Int(k) => bits64_of(k as int),
            Operand::Literal(lit) => bits64_of(signed32(lit)),
            _ => 0,
        }
    }

    /// The state after `value` is written to the register `op` names.
    pub open spec fn write(self, op: Operand, value: u32) -> WaveState {
        match op {
            Operand::Sgpr(idx) => WaveState { sgpr: self.sgpr.update(idx as int, value), ..self },
            _ => self,
        }
    }
}

impl Wave {
    /// A wave at the start of a program: every register zero, SCC clear.
    pub fn new() -> (r: Self)
        ensures
            r.pc == 0,
            !r.scc,
            forall|i: int| 0 <= i < SGPR_COUNT ==> r.sgpr@[i] == 0,
    {
        Self { pc: 0, sgpr: [0; 106], scc: false }
    }

    /// The 32-bit value of `operand`.
    pub fn read(&self, operand: Operand) -> (r: u32)
        requires
            readable(operand),
        ensures
            r == self@.read(operand),
    {
        match operand {
            Operand::Zero => 0,
            Operand::Int(k) => {
                proof {
                    if k < 0 {
                        assert(k as i32 as u32 == k + 0x1_0000_0000) by (bit_vector)
                            requires
                                k < 0i8,
                        ;
                    }
                }
                k as i32 as u32
            },
            Operand::Sgpr(idx) => self.sgpr[idx as usize],
            Operand::Literal(lit) => lit,
            _ => 0,
        }
    }

    /// The 64-bit value of `operand`.
    pub fn read64(&self, operand: Operand) -> (r: u64)
        requires
            readable64(operand),
        ensures
            r == self@.read64(operand),
    {
        match operand {
            Operand::Sgpr(idx) => {
                let lo = self.sgpr[idx as usize] as u64;
                let hi = self.sgpr[idx as usize + 1] as u64;
                proof {
                    assert((hi << 32u64) | lo == hi * 0x1_0000_0000 + lo) by (bit_vector)
                        requires
                            hi < 0x1_0000_0000u64,
                            lo < 0x1_0000_0000u64,
                    ;
                }
                (hi << 32) | lo
            },
            Operand::Zero => 0,
            Operand::Int(k) => {
                proof {
                    if k < 0 {
                        assert(k as i64 as u64 == k + 0x1_0000_0000_0000_0000) by (bit_vector)
                            requires
                                k < 0i8,
                        ;
                    }
                }
                k as i64 as u64
            },
            Operand::Literal(lit) => {
                proof {
                    if lit >= 0x8000_0000 {
                        assert(lit as i32 as i64 as u64 == lit + 0xFFFF_FFFF_0000_0000u64) by (bit_vector)
                            requires
                                lit >= 0x8000_0000u32,
                        ;
                    } else {
                        assert(lit as i32 as i64 as u64 == lit) by (bit_vector)
                            requires
                                lit < 0x8000_0000u32,
                        ;
                    }
                }
                lit as i32 as i64 as u64
            },
            _ => 0,
        }
    }

    /// Writes `value` to the register `operand` names.
    pub fn write(&mut self, operand: Operand, value: u32)
        requires
            writable(operand),
        ensures
            final(self)@ == old(self)@.write(operand, value),
    {
        match operand {
            Operand::Sgpr(idx) => self.sgpr[idx as usize] = value,
            _ => {},
        }
    }
}

/// A read of the register just written gives back the value written; every
/// other register, the program counter and SCC keep their values.
pub proof fn lemma_read_after_write(s: WaveState, dst: Operand, value: u32, other: Operand)
    requires
        writable(dst),
        readable(other),
        s.sgpr.len() == SGPR_COUNT,
    ensures
        s.write(dst, value).read(dst) == value,
        other != dst ==> s.write(dst, value).read(other) == s.read(other),
        s.write(dst, value).pc == s.pc,
        s.write(dst, value).scc == s.scc,
        s.write(dst, value).sgpr.len() == s.sgpr.len(),
{
}

/// The low half of a 64-bit read is the 32-bit read of the same operand, and
/// a register pair keeps its high half in the next register.
pub proof fn lemma_read64_halves(s: WaveState, op: Operand)
    requires
        readable64(op),
        s.sgpr.len() == SGPR_COUNT,
    ensures
        readable(op),
        s.read64(op) % 0x1_0000_0000 == s.read(op),
        op matches Operand::Sgpr(idx) ==> s.read64(op) / 0x1_0000_0000 == s.read(Operand::Sgpr((idx + 1) as u8)),
{
    match op {
        Operand::Sgpr(idx) => {
            let lo = s.sgpr[idx as int];
            let hi = s.sgpr[idx + 1];
            assert((hi * 0x1_0000_0000 + lo) % 0x1_0000_0000 == lo) by (nonlinear_arith)
                requires
                    lo < 0x1_0000_0000,
            ;
            assert((hi * 0x1_0000_0000 + lo) / 0x1_0000_0000 == hi) by (nonlinear_arith)
                requires
                    lo < 0x1_0000_0000,
            ;
        },
        _ => {},
    }
}

/// `signed32` is the value that Rust's `as i32` gives a 32-bit pattern.
pub proof fn lemma_signed32(x: u32)
    ensures
        (x as i32) as int == signed32(x),
        signed32(x) < 0 <==> x >= 0x8000_0000,
{
    if x >= 0x8000_0000 {
        assert((x as i32) as int == x - 0x1_0000_0000) by (bit_vector)
            requires
                x >= 0x8000_0000u32,
        ;
    } else {
        assert((x as i32) as int == x) by (bit_vector)
            requires
                x < 0x8000_0000u32,
        ;
    }
}

/// Inline integers read back as the same number, as 32 and as 64 bits;
/// a literal read as 64 bits is its sign extension, and zero reads as 0.
pub proof fn lemma_read_values(s: WaveState, op: Operand)
    ensures
        op matches Operand::Int(k) ==> (s.read(op) as i32) as int == k && (s.read64(op) as i64) as int == k,
        op matches Operand::Literal(lit) ==> s.read(op) == lit && (s.read64(op) as i64) as int == (lit as i32) as int,
        op == Operand::Zero ==> s.read(op) == 0 && s.read64(op) == 0,
        op matches Operand::Sgpr(idx) ==> s.read(op) == s.sgpr[idx as int],
{
    match op {
        Operand::Int(k) => {
            let x = s.read(op);
            let y = s.read64(op);
            lemma_signed32(x);
            if k < 0 {
                assert(y >= 0x8000_0000_0000_0000);
                assert((y as i64) as int == y - 0x1_0000_0000_0000_0000) by (bit_vector)
                    requires
                        y >= 0x8000_0000_0000_0000u64,
                ;
            } else {
                assert((y as i64) as int == y) by (bit_vector)
                    requires
                        y < 0x8000_0000_0000_0000u64,
                ;
            }
        },
        Operand::Literal(lit) => {
            let y = s.read64(op);
            lemma_signed32(lit);
            if lit >= 0x8000_0000 {
                assert((y as i64) as int == y - 0x1_0000_0000_0000_0000) by (bit_vector)
                    requires
                        y >= 0x8000_0000_0000_0000u64,
                ;
            } else {
                assert((y as i64) as int == y) by (bit_vector)
                    requires
                        y < 0x8000_0000_0000_0000u64,
                ;
            }
        },
        _ => {},
    }
}

} // verus!
