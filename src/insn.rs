//! The PicoRV32 custom interrupt instructions.
//!
//! They all use the R instruction format in the `custom-0` opcode space:
//!
//! ```text
//!  31      25 24  20 19  15 14  12 11   7 6      0
//! [ funct7   | rs2  | rs1  |funct3|  rd  | opcode ]
//! ```
//!
//! `opcode` is `0b0001011`, `funct3` is not used and is zero, `funct7` names
//! the instruction and `rs2` is always the zero register. `rd` and `rs1` are
//! ordinary registers, except for `getq` and `setq`: the processor treats the
//! shadow registers as extra registers, so `getq` names `qN` as `rs1` and
//! `setq` names it as `rd`, by its number `N`.
use vstd::prelude::*;

verus! {

/// The `custom-0` major opcode.
pub const CUSTOM_0: u32 = 0b0001011;

/// `funct7` of `getq`.
pub const FUNCT7_GETQ: u32 = 0b0000000;

/// `funct7` of `setq`.
pub const FUNCT7_SETQ: u32 = 0b0000001;

/// `funct7` of `retirq`.
pub const FUNCT7_RETIRQ: u32 = 0b0000010;

/// `funct7` of `maskirq`.
pub const FUNCT7_MASKIRQ: u32 = 0b0000011;

/// `funct7` of `waitirq`.
pub const FUNCT7_WAITIRQ: u32 = 0b0000100;

/// `funct7` of `timer`.
pub const FUNCT7_TIMER: u32 = 0b0000101;

/// One custom instruction, with the registers it names.
#[derive(Clone, Copy, Debug, PartialEq, Eq)]
pub enum Instruction {
    /// `getq rd, qN`: reads shadow register `qN` into `rd`.
    Getq { rd: u32, q: u32 },
    /// `setq qN, rs1`: writes `rs1` to shadow register `qN`.
    Setq { q: u32, rs1: u32 },
    /// `retirq`: returns from the interrupt handler and re-enables interrupts.
    Retirq,
    /// `maskirq rd, rs1`: writes `rs1` to the IRQ mask, the old mask to `rd`.
    Maskirq { rd: u32, rs1: u32 },
    /// `waitirq rd`: waits for a pending IRQ and writes the pending bitmask to `rd`.
    Waitirq { rd: u32 },
    /// `timer rd, rs1`: writes `rs1` to the timer counter, the old count to `rd`.
    Timer { rd: u32, rs1: u32 },
}

/// The word of an R-format instruction with the given fields.
pub open spec fn r_type(funct7: u32, rs2: u32, rs1: u32, funct3: u32, rd: u32, opcode: u32) -> u32 {
    (funct7 << 25u32) | (rs2 << 20u32) | (rs1 << 15u32) | (funct3 << 12u32) | (rd << 7u32) | opcode
}

/// Bits 0 to 6 of an instruction word.
pub open spec fn opcode_of(w: u32) -> u32 {
    w & 0x7f
}

/// Bits 7 to 11 of an instruction word.
pub open spec fn rd_of(w: u32) -> u32 {
    (w >> 7u32) & 0x1f
}

/// Bits 12 to 14 of an instruction word.
pub open spec fn funct3_of(w: u32) -> u32 {
    (w >> 12u32) & 0x7
}

/// Bits 15 to 19 of an instruction word.
pub open spec fn rs1_of(w: u32) -> u32 {
    (w >> 15u32) & 0x1f
}

/// Bits 20 to 24 of an instruction word.
pub open spec fn rs2_of(w: u32) -> u32 {
    (w >> 20u32) & 0x1f
}

/// Bits 25 to 31 of an instruction word.
pub open spec fn funct7_of(w: u32) -> u32 {
    w >> 25u32
}

/// The fields of an R-format word read back as they were put in.
pub proof fn lemma_r_type_fields(funct7: u32, rs2: u32, rs1: u32, funct3: u32, rd: u32, opcode: u32)
    requires
        funct7 < 128,
        rs2 < 32,
        rs1 < 32,
        funct3 < 8,
        rd < 32,
        opcode < 128,
    ensures
        opcode_of(r_type(funct7, rs2, rs1, funct3, rd, opcode)) == opcode,
        rd_of(r_type(funct7, rs2, rs1, funct3, rd, opcode)) == rd,
        funct3_of(r_type(funct7, rs2, rs1, funct3, rd, opcode)) == funct3,
        rs1_of(r_type(funct7, rs2, rs1, funct3, rd, opcode)) == rs1,
        rs2_of(r_type(funct7, rs2, rs1, funct3, rd, opcode)) == rs2,
        funct7_of(r_type(funct7, rs2, rs1, funct3, rd, opcode)) == funct7,
{
    let w = r_type(funct7, rs2, rs1, funct3, rd, opcode);
    assert(w & 0x7f == opcode) by (bit_vector)
        requires
            w == (funct7 << 25u32) | (rs2 << 20u32) | (rs1 << 15u32) | (funct3 << 12u32) | (rd
                << 7u32) | opcode,
            opcode < 128,
    ;
    assert((w >> 7u32) & 0x1f == rd) by (bit_vector)
        requires
            w == (funct7 << 25u32) | (rs2 << 20u32) | (rs1 << 15u32) | (funct3 << 12u32) | (rd
                << 7u32) | opcode,
            rd < 32,
            opcode < 128,
    ;
    assert((w >> 12u32) & 0x7 == funct3) by (bit_vector)
        requires
            w == (funct7 << 25u32) | (rs2 << 20u32) | (rs1 << 15u32) | (funct3 << 12u32) | (rd
                << 7u32) | opcode,
            funct3 < 8,
            rd < 32,
            opcode < 128,
    ;
    assert((w >> 15u32) & 0x1f == rs1) by (bit_vector)
        requires
            w == (funct7 << 25u32) | (rs2 << 20u32) | (rs1 << 15u32) | (funct3 << 12u32) | (rd
                << 7u32) | opcode,
            rs1 < 32,
            funct3 < 8,
            rd < 32,
            opcode < 128,
    ;
    assert((w >> 20u32) & 0x1f == rs2) by (bit_vector)
        requires
            w == (funct7 << 25u32) | (rs2 << 20u32) | (rs1 << 15u32) | (funct3 << 12u32) | (rd
                << 7u32) | opcode,
            rs2 < 32,
            rs1 < 32,
            funct3 < 8,
            rd < 32,
            opcode < 128,
    ;
    assert(w >> 25u32 == funct7) by (bit_vector)
        requires
            w == (funct7 << 25u32) | (rs2 << 20u32) | (rs1 << 15u32) | (funct3 << 12u32) | (rd
                << 7u32) | opcode,
            funct7 < 128,
            rs2 < 32,
            rs1 < 32,
            funct3 < 8,
            rd < 32,
            opcode < 128,
    ;
}

impl Instruction {
    /// Register numbers fit in five bits, and the shadow register is `q2` or
    /// `q3`, the two that handlers may use.
    pub open spec fn wf(&self) -> bool {
        match *self {
            Instruction::Getq { rd, q } => rd < 32 && (q == 2 || q == 3),
            Instruction::Setq { q, rs1 } => (q == 2 || q == 3) && rs1 < 32,
            Instruction::Retirq => true,
            Instruction::Maskirq { rd, rs1 } => rd < 32 && rs1 < 32,
            Instruction::Waitirq { rd } => rd < 32,
            Instruction::Timer { rd, rs1 } => rd < 32 && rs1 < 32,
        }
    }

    /// The `funct7` field that names the instruction.
    pub open spec fn funct7_spec(&self) -> u32 {
        match *self {
            Instruction::Getq { .. } => FUNCT7_GETQ,
            Instruction::Setq { .. } => FUNCT7_SETQ,
            Instruction::Retirq => FUNCT7_RETIRQ,
            Instruction::Maskirq { .. } => FUNCT7_MASKIRQ,
            Instruction::Waitirq { .. } => FUNCT7_WAITIRQ,
            Instruction::Timer { .. } => FUNCT7_TIMER,
        }
    }

    /// The `rd` field: the destination, `qN` for `setq`, zero where unused.
    pub open spec fn rd_spec(&self) -> u32 {
        match *self {
            Instruction::Getq { rd, .. } => rd,
            Instruction::Setq { q, .. } => q,
            Instruction::Retirq => 0,
            Instruction::Maskirq { rd, .. } => rd,
            Instruction::Waitirq { rd } => rd,
            Instruction::Timer { rd, .. } => rd,
        }
    }

    /// The `rs1` field: the source, `qN` for `getq`, zero where unused.
    pub open spec fn rs1_spec(&self) -> u32 {
        match *self {
            Instruction::Getq { q, .. } => q,
            Instruction::Setq { rs1, .. } => rs1,
            Instruction::Retirq => 0,
            Instruction::Maskirq { rs1, .. } => rs1,
            Instruction::Waitirq { .. } => 0,
            Instruction::Timer { rs1, .. } => rs1,
        }
    }

    /// The 32-bit word of the instruction.
    pub fn encode(&self) -> (w: u32)
        requires
            self.wf(),
        ensures
            w == r_type(self.funct7_spec(), 0, self.rs1_spec(), 0, self.rd_spec(), CUSTOM_0),
            opcode_of(w) == CUSTOM_0,
            funct3_of(w) == 0,
            rs2_of(w) == 0,
            funct7_of(w) == self.funct7_spec(),
            rd_of(w) == self.rd_spec(),
            rs1_of(w) == self.rs1_spec(),
    {
        let (funct7, rd, rs1): (u32, u32, u32) = match *self {
            Instruction::Getq { rd, q } => (FUNCT7_GETQ, rd, q),
            Instruction::Setq { q, rs1 } => (FUNCT7_SETQ, q, rs1),
            Instruction::Retirq => (FUNCT7_RETIRQ, 0, 0),
            Instruction::Maskirq { rd, rs1 } => (FUNCT7_MASKIRQ, rd, rs1),
            Instruction::Waitirq { rd } => (FUNCT7_WAITIRQ, rd, 0),
            Instruction::Timer { rd, rs1 } => (FUNCT7_TIMER, rd, rs1),
        };
        proof {
            lemma_r_type_fields(funct7, 0, rs1, 0, rd, CUSTOM_0);
        }
        (funct7 << 25u32) | (0u32 << 20u32) | (rs1 << 15u32) | (0u32 << 12u32) | (rd << 7u32) | CUSTOM_0
    }
}

} // verus!
