//! Total instruction decoder.
//!
//! Classification is a structured match on the two high bits of the opcode
//! followed by field extraction, so totality and mutual exclusivity hold by
//! construction: every one of the 256 opcode bytes maps to exactly one
//! instruction (architecturally undefined slots map to `Unimplemented`).
//! The fields are taken arithmetically: for an opcode byte `op`, the high
//! two bits are `op / 64`, bits 3 through 5 are `(op / 8) % 8`, and bits 0
//! through 2 are `op % 8`.
//!
//! 16-bit operands are assembled low byte first (little-endian). A decode
//! that runs out of bytes before its last operand is abandoned whole: the
//! cursor does not move and no instruction is produced.

use vstd::prelude::*;

use crate::isa::{
    spec_alu_from, spec_condition_from, spec_pair_from, spec_register_from, alu_from,
    condition_from, pair_from, register_from, Instruction,
};

verus! {

/// Number of operand bytes (0, 1, or 2) that follow the opcode byte `op`.
pub open spec fn spec_operand_len(op: u8) -> nat {
    let hi = op / 64;
    let mid = (op / 8) % 8;
    let lo = op % 8;
    if hi == 0 {
        if lo == 1 && mid % 2 == 0 {
            2
        } else if lo == 2 && mid >= 4 {
            2
        } else if lo == 6 {
            1
        } else {
            0
        }
    } else if hi == 3 {
        if lo == 2 || lo == 4 {
            2
        } else if lo == 6 {
            1
        } else if lo == 3 {
            if mid == 0 {
                2
            } else if mid == 2 || mid == 3 {
                1
            } else {
                0
            }
        } else if lo == 5 && mid == 1 {
            2
        } else {
            0
        }
    } else {
        0
    }
}

/// The instruction encoded by opcode byte `op` with operand bytes `b1` and
/// `b2` (`b1` first in the stream; each is read only when `op`'s class has
/// that many operand bytes). Total over all 256 opcode values.
pub open spec fn spec_instruction(op: u8, b1: u8, b2: u8) -> Instruction {
    let hi = op / 64;
    let mid = ((op / 8) % 8) as int;
    let lo = (op % 8) as int;
    let imm16 = (b1 + 256 * b2) as u16;
    if hi == 0 {
        if lo == 0 {
            if mid == 0 {
                Instruction::Nop
            } else {
                Instruction::Unimplemented(op)
            }
        } else if lo == 1 {
            if mid % 2 == 0 {
                Instruction::Lxi(spec_pair_from(mid / 2), imm16)
            } else {
                Instruction::Dad(spec_pair_from(mid / 2))
            }
        } else if lo == 2 {
            if mid == 0 {
                Instruction::Stax(crate::isa::RegisterPair::BC)
            } else if mid == 1 {
                Instruction::Ldax(crate::isa::RegisterPair::BC)
            } else if mid == 2 {
                Instruction::Stax(crate::isa::RegisterPair::DE)
            } else if mid == 3 {
                Instruction::Ldax(crate::isa::RegisterPair::DE)
            } else if mid == 4 {
                Instruction::Shld(imm16)
            } else if mid == 5 {
                Instruction::Lhld(imm16)
            } else if mid == 6 {
                Instruction::Sta(imm16)
            } else {
                Instruction::Lda(imm16)
            }
        } else if lo == 3 {
            if mid % 2 == 0 {
                Instruction::Inx(spec_pair_from(mid / 2))
            } else {
                Instruction::Dcx(spec_pair_from(mid / 2))
            }
        } else if lo == 4 {
            Instruction::Inr(spec_register_from(mid))
        } else if lo == 5 {
            Instruction::Dcr(spec_register_from(mid))
        } else if lo == 6 {
            Instruction::Mvi(spec_register_from(mid), b1)
        } else {
            if mid == 0 {
                Instruction::Rlc
            } else if mid == 1 {
                Instruction::Rrc
            } else if mid == 2 {
                Instruction::Ral
            } else if mid == 3 {
                Instruction::Rar
            } else if mid == 4 {
                Instruction::Daa
            } else if mid == 5 {
                Instruction::Cma
            } else if mid == 6 {
                Instruction::Stc
            } else {
                Instruction::Cmc
            }
        }
    } else if hi == 1 {
        if op == 0x76 {
            Instruction::Hlt
        } else {
            Instruction::Mov(spec_register_from(mid), spec_register_from(lo))
        }
    } else if hi == 2 {
        Instruction::AluR(spec_alu_from(mid), spec_register_from(lo))
    } else {
        if lo == 0 {
            Instruction::Rcc(spec_condition_from(mid))
        } else if lo == 1 {
            if mid % 2 == 0 {
                Instruction::Pop(spec_pair_from(mid / 2))
            } else if mid == 1 {
                Instruction::Ret
            } else if mid == 5 {
                Instruction::Pchl
            } else if mid == 7 {
                Instruction::Sphl
            } else {
                Instruction::Unimplemented(op)
            }
        } else if lo == 2 {
            Instruction::Jcc(spec_condition_from(mid), imm16)
        } else if lo == 3 {
            if mid == 0 {
                Instruction::Jmp(imm16)
            } else if mid == 2 {
                Instruction::Out(b1)
            } else if mid == 3 {
                Instruction::In(b1)
            } else if mid == 4 {
                Instruction::Xthl
            } else if mid == 6 {
                Instruction::Di
            } else if mid == 7 {
                Instruction::Ei
            } else {
                Instruction::Unimplemented(op)
            }
        } else if lo == 4 {
            Instruction::Ccc(spec_condition_from(mid), imm16)
        } else if lo == 5 {
            if mid % 2 == 0 {
                Instruction::Push(spec_pair_from(mid / 2))
            } else if mid == 1 {
                Instruction::Call(imm16)
            } else {
                Instruction::Unimplemented(op)
            }
        } else if lo == 6 {
            Instruction::AluI(spec_alu_from(mid), b1)
        } else {
            Instruction::Rst(mid as u8)
        }
    }
}

/// Decode one instruction from `bytes` starting at `pos`.
///
/// Returns the instruction and its total encoded length (opcode plus
/// operand bytes, so 1 through 3), or `None` when the opcode byte or any
/// required operand byte lies past the end of `bytes`.
pub open spec fn spec_decode(bytes: Seq<u8>, pos: int) -> Option<(Instruction, int)> {
    if 0 <= pos < bytes.len() {
        let op = bytes[pos];
        let n = spec_operand_len(op) as int;
        if pos + 1 + n <= bytes.len() {
            let b1 = if n >= 1 {
                bytes[pos + 1]
            } else {
                0u8
            };
            let b2 = if n >= 2 {
                bytes[pos + 2]
            } else {
                0u8
            };
            Some((spec_instruction(op, b1, b2), 1 + n))
        } else {
            None
        }
    } else {
        None
    }
}

/// Decode one instruction from `bytes` at `pos`, returning the instruction
/// and its total encoded length, or `None` when a required byte is missing.
pub fn decode_at(bytes: &Vec<u8>, pos: usize) -> (r: Option<(Instruction, usize)>)
    ensures
        match r {
            Some((i, n)) => spec_decode(bytes@, pos as int) == Some((i, n as int)),
            None => spec_decode(bytes@, pos as int) is None,
        },
{
    if pos >= bytes.len() {
        return None;
    }
    let op = bytes[pos];
    let hi = op / 64;
    let mid = (op / 8) % 8;
    let lo = op % 8;
    let need: usize = operand_len(op);
    if bytes.len() - pos < 1 + need {
        return None;
    }
    let b1: u8 = if need >= 1 {
        bytes[pos + 1]
    } else {
        0
    };
    let b2: u8 = if need >= 2 {
        bytes[pos + 2]
    } else {
        0
    };
    let imm16: u16 = b1 as u16 + 256 * b2 as u16;
    let instruction = if hi == 0 {
        if lo == 0 {
            if mid == 0 {
                Instruction::Nop
            } else {
                Instruction::Unimplemented(op)
            }
        } else if lo == 1 {
            if mid % 2 == 0 {
                Instruction::Lxi(pair_from(mid / 2), imm16)
            } else {
                Instruction::Dad(pair_from(mid / 2))
            }
        } else if lo == 2 {
            if mid == 0 {
                Instruction::Stax(crate::isa::RegisterPair::BC)
            } else if mid == 1 {
                Instruction::Ldax(crate::isa::RegisterPair::BC)
            } else if mid == 2 {
                Instruction::Stax(crate::isa::RegisterPair::DE)
            } else if mid == 3 {
                Instruction::Ldax(crate::isa::RegisterPair::DE)
            } else if mid == 4 {
                Instruction::Shld(imm16)
            } else if mid == 5 {
                Instruction::Lhld(imm16)
            } else if mid == 6 {
                Instruction::Sta(imm16)
            } else {
                Instruction::Lda(imm16)
            }
        } else if lo == 3 {
            if mid % 2 == 0 {
                Instruction::Inx(pair_from(mid / 2))
            } else {
                Instruction::Dcx(pair_from(mid / 2))
            }
        } else if lo == 4 {
            Instruction::Inr(register_from(mid))
        } else if lo == 5 {
            Instruction::Dcr(register_from(mid))
        } else if lo == 6 {
            Instruction::Mvi(register_from(mid), b1)
        } else {
            if mid == 0 {
                Instruction::Rlc
            } else if mid == 1 {
                Instruction::Rrc
            } else if mid == 2 {
                Instruction::Ral
            } else if mid == 3 {
                Instruction::Rar
            } else if mid == 4 {
                Instruction::Daa
            } else if mid == 5 {
                Instruction::Cma
            } else if mid == 6 {
                Instruction::Stc
            } else {
                Instruction::Cmc
            }
        }
    } else if hi == 1 {
        if op == 0x76 {
            Instruction::Hlt
        } else {
            Instruction::Mov(register_from(mid), register_from(lo))
        }
    } else if hi == 2 {
        Instruction::AluR(alu_from(mid), register_from(lo))
    } else {
        if lo == 0 {
            Instruction::Rcc(condition_from(mid))
        } else if lo == 1 {
            if mid % 2 == 0 {
                Instruction::Pop(pair_from(mid / 2))
            } else if mid == 1 {
                Instruction::Ret
            } else if mid == 5 {
                Instruction::Pchl
            } else if mid == 7 {
                Instruction::Sphl
            } else {
                Instruction::Unimplemented(op)
            }
        } else if lo == 2 {
            Instruction::Jcc(condition_from(mid), imm16)
        } else if lo == 3 {
            if mid == 0 {
                Instruction::Jmp(imm16)
            } else if mid == 2 {
                Instruction::Out(b1)
            } else if mid == 3 {
                Instruction::In(b1)
            } else if mid == 4 {
                Instruction::Xthl
            } else if mid == 6 {
                Instruction::Di
            } else if mid == 7 {
                Instruction::Ei
            } else {
                Instruction::Unimplemented(op)
            }
        } else if lo == 4 {
            Instruction::Ccc(condition_from(mid), imm16)
        } else if lo == 5 {
            if mid % 2 == 0 {
                Instruction::Push(pair_from(mid / 2))
            } else if mid == 1 {
                Instruction::Call(imm16)
            } else {
                Instruction::Unimplemented(op)
            }
        } else if lo == 6 {
            Instruction::AluI(alu_from(mid), b1)
        } else {
            Instruction::Rst(mid)
        }
    };
    Some((instruction, 1 + need))
}

/// Executable form of `spec_operand_len`.
pub fn operand_len(op: u8) -> (r: usize)
    ensures
        r as nat == spec_operand_len(op),
        r <= 2,
{
    let hi = op / 64;
    let mid = (op / 8) % 8;
    let lo = op % 8;
    if hi == 0 {
        if lo == 1 && mid % 2 == 0 {
            2
        } else if lo == 2 && mid >= 4 {
            2
        } else if lo == 6 {
            1
        } else {
            0
        }
    } else if hi == 3 {
        if lo == 2 || lo == 4 {
            2
        } else if lo == 6 {
            1
        } else if lo == 3 {
            if mid == 0 {
                2
            } else if mid == 2 || mid == 3 {
                1
            } else {
                0
            }
        } else if lo == 5 && mid == 1 {
            2
        } else {
            0
        }
    } else {
        0
    }
}

/// A cursor over a byte source that yields one decoded instruction per
/// call to `next`, advancing past exactly the bytes that instruction
/// occupies. A truncated trailing instruction leaves the cursor where it
/// was and yields nothing: the caller never sees a half-built instruction.
pub struct Disassembler {
    bytes: Vec<u8>,
    pos: usize,
}

impl Disassembler {
    /// The byte source being decoded.
    pub closed spec fn source(&self) -> Seq<u8> {
        self.bytes@
    }

    /// The cursor: index of the next byte to be consumed.
    pub closed spec fn position(&self) -> int {
        self.pos as int
    }

    /// A fresh cursor over `bytes`, positioned at the start.
    pub fn new(bytes: Vec<u8>) -> (r: Disassembler)
        ensures
            r.source() == bytes@,
            r.position() == 0,
    {
        Disassembler { bytes, pos: 0 }
    }

    /// The cursor as a count of consumed bytes.
    pub fn offset(&self) -> (r: usize)
        ensures
            r as int == self.position(),
    {
        self.pos
    }

    /// Decode the next instruction and advance past it, or report the end
    /// of the stream (opcode or operand byte missing) without moving.
    pub fn next(&mut self) -> (r: Option<Instruction>)
        ensures
            final(self).source() == old(self).source(),
            match spec_decode(old(self).source(), old(self).position()) {
                Some((i, n)) => {
                    &&& r == Some(i)
                    &&& final(self).position() == old(self).position() + n
                },
                None => {
                    &&& r is None
                    &&& final(self).position() == old(self).position()
                },
            },
    {
        let len = self.bytes.len();
        match decode_at(&self.bytes, self.pos) {
            Some((instruction, n)) => {
                assert(self.pos + n <= len);
                self.pos = self.pos + n;
                Some(instruction)
            },
            None => None,
        }
    }
}

/// Totality: every opcode byte decodes, given enough trailing bytes. With
/// at least three bytes available at `pos` (an opcode and the most operand
/// bytes any class takes), decoding cannot fail, whatever the bytes hold.
pub proof fn lemma_decode_total(bytes: Seq<u8>, pos: int)
    requires
        0 <= pos,
        pos + 3 <= bytes.len(),
    ensures
        spec_decode(bytes, pos) is Some,
{
}

/// Operand-length correctness: a successful decode consumes the opcode
/// byte plus exactly the operand bytes documented for its class — 0, 1,
/// or 2 of them, as `spec_operand_len` states.
pub proof fn lemma_decode_length(bytes: Seq<u8>, pos: int)
    ensures
        match spec_decode(bytes, pos) {
            Some((i, n)) => n == 1 + spec_operand_len(bytes[pos]) && 1 <= n <= 3,
            None => true,
        },
{
}

/// Decode idempotence: what decodes at a position depends on the byte
/// sequence and the position alone, so decoding a fixed byte sequence
/// twice from a fresh cursor yields identical instruction sequences.
pub proof fn lemma_decode_deterministic(first: Seq<u8>, second: Seq<u8>, pos: int)
    requires
        first =~= second,
    ensures
        spec_decode(first, pos) == spec_decode(second, pos),
{
}

} // verus!
