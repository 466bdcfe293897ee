//! Instruction-set data types: registers, register pairs, condition codes,
//! ALU operations, condition flags, and the decoded instruction itself.

use vstd::prelude::*;

verus! {

/// One-byte register names, in encoding order (indices 0 through 7).
///
/// `M` does not name a physical slot: it stands for the memory cell
/// addressed by the HL pair and must be redirected at every access site
/// by the execution engine.
#[derive(Clone, Copy, Debug, PartialEq, Eq, Structural)]
pub enum Register {
    B,
    C,
    D,
    E,
    H,
    L,
    M,
    A,
}

/// 16-bit register-pair names, in encoding order (indices 0 through 3).
///
/// BC, DE and HL are two-byte little-endian windows over consecutive
/// one-byte register slots; SP is a dedicated 16-bit value, never backed
/// by one-byte registers.
#[derive(Clone, Copy, Debug, PartialEq, Eq, Structural)]
pub enum RegisterPair {
    BC,
    DE,
    HL,
    SP,
}

/// The eight branch predicates, in encoding order (indices 0 through 7):
/// not-zero, zero, no-carry, carry, parity-odd, parity-even, plus, minus.
#[derive(Clone, Copy, Debug, PartialEq, Eq, Structural)]
pub enum CarryCode {
    Nz,
    Z,
    Nc,
    C,
    Po,
    Pe,
    P,
    N,
}

/// The eight ALU operations, in encoding order (indices 0 through 7).
#[derive(Clone, Copy, Debug, PartialEq, Eq, Structural)]
pub enum AluMode {
    Add,
    Adc,
    Sub,
    Sbb,
    Ana,
    Xra,
    Ora,
    Cmp,
}

/// Condition flags, updated by flag-affecting instructions and read by
/// conditional control flow and decimal adjustment.
#[derive(Clone, Copy, Debug, PartialEq, Eq, Structural)]
pub struct Flags {
    pub zero: bool,
    pub sign: bool,
    pub parity: bool,
    pub carry: bool,
    pub aux_carry: bool,
}

impl Flags {
    /// All flags cleared, as at machine reset.
    pub fn cleared() -> (r: Flags)
        ensures
            r == Flags::spec_cleared(),
    {
        Flags { zero: false, sign: false, parity: false, carry: false, aux_carry: false }
    }

    pub open spec fn spec_cleared() -> Flags {
        Flags { zero: false, sign: false, parity: false, carry: false, aux_carry: false }
    }
}

/// A fully decoded instruction: one case per opcode family, carrying its
/// typed operands. Every one of the 256 opcode bytes maps to exactly one
/// case; architecturally undefined slots map to `Unimplemented`.
#[derive(Clone, Copy, Debug, PartialEq, Eq, Structural)]
pub enum Instruction {
    Nop,
    Lxi(RegisterPair, u16),
    Stax(RegisterPair),
    Inx(RegisterPair),
    Inr(Register),
    Dcr(Register),
    Mvi(Register, u8),
    Dad(RegisterPair),
    Ldax(RegisterPair),
    Dcx(RegisterPair),
    Rlc,
    Rrc,
    Ral,
    Rar,
    Shld(u16),
    Daa,
    Lhld(u16),
    Cma,
    Sta(u16),
    Stc,
    Lda(u16),
    Cmc,
    Mov(Register, Register),
    Hlt,
    AluR(AluMode, Register),
    Rcc(CarryCode),
    Pop(RegisterPair),
    Jcc(CarryCode, u16),
    Jmp(u16),
    Ccc(CarryCode, u16),
    Push(RegisterPair),
    AluI(AluMode, u8),
    Rst(u8),
    Ret,
    Call(u16),
    Out(u8),
    In(u8),
    Xthl,
    Pchl,
    Di,
    Sphl,
    Ei,
    Unimplemented(u8),
}

/// Encoding index of a register (0 through 7).
pub open spec fn register_index(r: Register) -> int {
    match r {
        Register::B => 0,
        Register::C => 1,
        Register::D => 2,
        Register::E => 3,
        Register::H => 4,
        Register::L => 5,
        Register::M => 6,
        Register::A => 7,
    }
}

/// Register named by an encoding index.
pub open spec fn spec_register_from(i: int) -> Register
    recommends
        0 <= i < 8,
{
    if i == 0 {
        Register::B
    } else if i == 1 {
        Register::C
    } else if i == 2 {
        Register::D
    } else if i == 3 {
        Register::E
    } else if i == 4 {
        Register::H
    } else if i == 5 {
        Register::L
    } else if i == 6 {
        Register::M
    } else {
        Register::A
    }
}

/// Executable form of `spec_register_from`.
pub fn register_from(i: u8) -> (r: Register)
    requires
        i < 8,
    ensures
        r == spec_register_from(i as int),
        register_index(r) == i as int,
{
    if i == 0 {
        Register::B
    } else if i == 1 {
        Register::C
    } else if i == 2 {
        Register::D
    } else if i == 3 {
        Register::E
    } else if i == 4 {
        Register::H
    } else if i == 5 {
        Register::L
    } else if i == 6 {
        Register::M
    } else {
        Register::A
    }
}

/// Slot of a register in the register file.
pub fn register_slot(r: Register) -> (i: usize)
    ensures
        i as int == register_index(r),
        i < 8,
{
    match r {
        Register::B => 0,
        Register::C => 1,
        Register::D => 2,
        Register::E => 3,
        Register::H => 4,
        Register::L => 5,
        Register::M => 6,
        Register::A => 7,
    }
}

/// Encoding index of a register pair (0 through 3).
pub open spec fn pair_index(rp: RegisterPair) -> int {
    match rp {
        RegisterPair::BC => 0,
        RegisterPair::DE => 1,
        RegisterPair::HL => 2,
        RegisterPair::SP => 3,
    }
}

/// Register pair named by an encoding index.
pub open spec fn spec_pair_from(i: int) -> RegisterPair
    recommends
        0 <= i < 4,
{
    if i == 0 {
        RegisterPair::BC
    } else if i == 1 {
        RegisterPair::DE
    } else if i == 2 {
        RegisterPair::HL
    } else {
        RegisterPair::SP
    }
}

/// Executable form of `spec_pair_from`.
pub fn pair_from(i: u8) -> (r: RegisterPair)
    requires
        i < 4,
    ensures
        r == spec_pair_from(i as int),
        pair_index(r) == i as int,
{
    if i == 0 {
        RegisterPair::BC
    } else if i == 1 {
        RegisterPair::DE
    } else if i == 2 {
        RegisterPair::HL
    } else {
        RegisterPair::SP
    }
}

/// Slot of the low (first) backing byte of a register pair other than SP.
pub fn pair_base(rp: RegisterPair) -> (i: usize)
    requires
        rp != RegisterPair::SP,
    ensures
        i as int == 2 * pair_index(rp),
        i + 1 < 8,
{
    match rp {
        RegisterPair::BC => 0,
        RegisterPair::DE => 2,
        _ => 4,
    }
}

/// Encoding index of a condition code (0 through 7).
pub open spec fn condition_index(cc: CarryCode) -> int {
    match cc {
        CarryCode::Nz => 0,
        CarryCode::Z => 1,
        CarryCode::Nc => 2,
        CarryCode::C => 3,
        CarryCode::Po => 4,
        CarryCode::Pe => 5,
        CarryCode::P => 6,
        CarryCode::N => 7,
    }
}

/// Condition code named by an encoding index.
pub open spec fn spec_condition_from(i: int) -> CarryCode
    recommends
        0 <= i < 8,
{
    if i == 0 {
        CarryCode::Nz
    } else if i == 1 {
        CarryCode::Z
    } else if i == 2 {
        CarryCode::Nc
    } else if i == 3 {
        CarryCode::C
    } else if i == 4 {
        CarryCode::Po
    } else if i == 5 {
        CarryCode::Pe
    } else if i == 6 {
        CarryCode::P
    } else {
        CarryCode::N
    }
}

/// Executable form of `spec_condition_from`.
pub fn condition_from(i: u8) -> (r: CarryCode)
    requires
        i < 8,
    ensures
        r == spec_condition_from(i as int),
        condition_index(r) == i as int,
{
    if i == 0 {
        CarryCode::Nz
    } else if i == 1 {
        CarryCode::Z
    } else if i == 2 {
        CarryCode::Nc
    } else if i == 3 {
        CarryCode::C
    } else if i == 4 {
        CarryCode::Po
    } else if i == 5 {
        CarryCode::Pe
    } else if i == 6 {
        CarryCode::P
    } else {
        CarryCode::N
    }
}

/// Encoding index of an ALU operation (0 through 7).
pub open spec fn alu_index(m: AluMode) -> int {
    match m {
        AluMode::Add => 0,
        AluMode::Adc => 1,
        AluMode::Sub => 2,
        AluMode::Sbb => 3,
        AluMode::Ana => 4,
        AluMode::Xra => 5,
        AluMode::Ora => 6,
        AluMode::Cmp => 7,
    }
}

/// ALU operation named by an encoding index.
pub open spec fn spec_alu_from(i: int) -> AluMode
    recommends
        0 <= i < 8,
{
    if i == 0 {
        AluMode::Add
    } else if i == 1 {
        AluMode::Adc
    } else if i == 2 {
        AluMode::Sub
    } else if i == 3 {
        AluMode::Sbb
    } else if i == 4 {
        AluMode::Ana
    } else if i == 5 {
        AluMode::Xra
    } else if i == 6 {
        AluMode::Ora
    } else {
        AluMode::Cmp
    }
}

/// Executable form of `spec_alu_from`.
pub fn alu_from(i: u8) -> (r: AluMode)
    requires
        i < 8,
    ensures
        r == spec_alu_from(i as int),
        alu_index(r) == i as int,
{
    if i == 0 {
        AluMode::Add
    } else if i == 1 {
        AluMode::Adc
    } else if i == 2 {
        AluMode::Sub
    } else if i == 3 {
        AluMode::Sbb
    } else if i == 4 {
        AluMode::Ana
    } else if i == 5 {
        AluMode::Xra
    } else if i == 6 {
        AluMode::Ora
    } else {
        AluMode::Cmp
    }
}

} // verus!
