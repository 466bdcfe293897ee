//! Mathematical model of the machine and of one execution step.
//!
//! `MachineView` is the abstract state: register slots, memory, stack
//! pointer, instruction pointer, flags, interrupt flag, run state, and the
//! configured policy for architecturally undefined opcodes. `spec_step`
//! says exactly what one fetch-decode-execute step does to that state and
//! what outcome it reports; the executable engine is proved against it.

use vstd::prelude::*;

use crate::decoder::spec_decode;
use crate::isa::{
    alu_index, condition_index, pair_index, register_index, AluMode, CarryCode, Flags,
    Instruction, Register, RegisterPair,
};

verus! {

/// What one execution step reports back to its caller.
///
/// Port input and output are delegated to an external port abstraction:
/// the engine reports the request and the caller performs it (for input,
/// by storing the obtained byte into the accumulator).
#[derive(Clone, Copy, Debug, PartialEq, Eq, Structural)]
pub enum StepOutcome {
    /// The instruction was applied; the machine is still running.
    Continue,
    /// The machine is halted (now, or from an earlier step).
    Halted,
    /// The byte source ran out before a required opcode or operand byte
    /// could be fetched; the machine did not advance.
    DecodeTruncated,
    /// An architecturally undefined opcode was fetched under the
    /// fatal policy; the machine stops.
    UnimplementedOpcode,
    /// The instruction asks for a byte from the named port; the caller
    /// obtains it and stores it into the accumulator.
    PortInput(u8),
    /// The instruction sends the named byte to the named port (port
    /// first, data second); the caller delivers it.
    PortOutput(u8, u8),
}

/// Caller-chosen policy for architecturally undefined opcodes.
#[derive(Clone, Copy, Debug, PartialEq, Eq, Structural)]
pub enum UnimplementedPolicy {
    /// Stop the run: the machine halts and the step reports
    /// `UnimplementedOpcode`.
    Fatal,
    /// Treat the opcode as a no-op and continue.
    NoOp,
}

/// Abstract machine state.
#[verifier::ext_equal]
pub ghost struct MachineView {
    /// The eight one-byte register slots, in encoding order. The slot at
    /// the index of `M` is never read or written: `M` stands for memory
    /// at the HL address.
    pub regs: Seq<u8>,
    /// The 65536-byte linear memory.
    pub mem: Seq<u8>,
    /// The dedicated 16-bit stack pointer.
    pub sp: u16,
    /// The 16-bit instruction pointer: address of the next byte to fetch.
    pub ip: u16,
    pub flags: Flags,
    /// Process-wide interrupt-enable flag, consulted by an external
    /// interrupt-delivery mechanism.
    pub interrupts_enabled: bool,
    pub halted: bool,
    pub policy: UnimplementedPolicy,
}

pub const MEMORY_SIZE: usize = 65536;

impl MachineView {
    /// Well-formedness: the register file has its eight slots and memory
    /// its full 16-bit address space.
    pub open spec fn wf(self) -> bool {
        &&& self.regs.len() == 8
        &&& self.mem.len() == MEMORY_SIZE
    }
}

/// A 16-bit value offset by `d`, wrapping modulo 65536.
pub open spec fn wrap16(x: int) -> u16 {
    (x % 65536) as u16
}

/// An 8-bit value reduced modulo 256.
pub open spec fn wrap8(x: int) -> u8 {
    (x % 256) as u8
}

/// The 16-bit value of a register pair: the dedicated stack pointer for
/// SP; for BC, DE and HL, a little-endian window over the pair's two
/// backing slots (low byte in the even slot).
pub open spec fn spec_get_pair(s: MachineView, rp: RegisterPair) -> u16 {
    if rp == RegisterPair::SP {
        s.sp
    } else {
        (s.regs[2 * pair_index(rp)] + 256 * s.regs[2 * pair_index(rp) + 1]) as u16
    }
}

/// The state after storing `v` into register pair `rp` (little-endian
/// across the backing slots for BC/DE/HL; the dedicated field for SP).
pub open spec fn spec_set_pair(s: MachineView, rp: RegisterPair, v: u16) -> MachineView {
    if rp == RegisterPair::SP {
        MachineView { sp: v, ..s }
    } else {
        MachineView {
            regs: s.regs.update(2 * pair_index(rp), (v % 256) as u8).update(
                2 * pair_index(rp) + 1,
                (v / 256) as u8,
            ),
            ..s
        }
    }
}

/// The byte a register read yields: the slot's value, except for `M`,
/// which reads memory at the HL address.
pub open spec fn spec_read_register(s: MachineView, r: Register) -> u8 {
    if r == Register::M {
        s.mem[spec_get_pair(s, RegisterPair::HL) as int]
    } else {
        s.regs[register_index(r)]
    }
}

/// The state after a register write: the slot is replaced, except for
/// `M`, which writes memory at the HL address.
pub open spec fn spec_write_register(s: MachineView, r: Register, v: u8) -> MachineView {
    if r == Register::M {
        MachineView { mem: s.mem.update(spec_get_pair(s, RegisterPair::HL) as int, v), ..s }
    } else {
        MachineView { regs: s.regs.update(register_index(r), v), ..s }
    }
}

/// Number of one bits in `n`.
pub open spec fn spec_ones(n: nat) -> nat
    decreases n,
{
    if n == 0 {
        0
    } else {
        n % 2 + spec_ones(n / 2)
    }
}

/// The parity flag's value for a result byte: true when the byte holds an
/// even number of one bits.
pub open spec fn spec_parity(v: u8) -> bool {
    spec_ones(v as nat) % 2 == 0
}

/// The zero, sign and parity flags any 8-bit result `v` produces, joined
/// with the given carry and auxiliary-carry flags.
pub open spec fn spec_result_flags(v: u8, carry: bool, aux_carry: bool) -> Flags {
    Flags {
        zero: v == 0,
        sign: v >= 128,
        parity: spec_parity(v),
        carry,
        aux_carry,
    }
}

/// Result and flags of one ALU operation between the accumulator value
/// `a` and the operand byte `b`, under the incoming flags `f`.
///
/// Compare leaves the accumulator unchanged (the returned byte is `a`)
/// but sets flags exactly as the subtraction would. Carry means a carry
/// out of bit 7 for additions and a borrow for subtractions; the
/// auxiliary carry is the same at bit 3. The logical operations clear
/// the carry; AND sets the auxiliary carry from bit 3 of the operands'
/// OR, and XOR/OR clear it.
pub open spec fn spec_alu(m: AluMode, a: u8, b: u8, f: Flags) -> (u8, Flags) {
    match m {
        AluMode::Add => {
            let sum = a + b;
            (wrap8(sum), spec_result_flags(wrap8(sum), sum > 255, a % 16 + b % 16 > 15))
        },
        AluMode::Adc => {
            let c: int = if f.carry {
                1
            } else {
                0
            };
            let sum = a + b + c;
            (wrap8(sum), spec_result_flags(wrap8(sum), sum > 255, a % 16 + b % 16 + c > 15))
        },
        AluMode::Sub => {
            let d = a + 256 - b;
            (wrap8(d), spec_result_flags(wrap8(d), a < b, a % 16 < b % 16))
        },
        AluMode::Sbb => {
            let c: int = if f.carry {
                1
            } else {
                0
            };
            let d = a + 256 - b - c;
            (wrap8(d), spec_result_flags(wrap8(d), a < b + c, a % 16 < b % 16 + c))
        },
        AluMode::Ana => {
            let v = a & b;
            (v, spec_result_flags(v, false, (a | b) & 0x08 == 0x08))
        },
        AluMode::Xra => {
            let v = a ^ b;
            (v, spec_result_flags(v, false, false))
        },
        AluMode::Ora => {
            let v = a | b;
            (v, spec_result_flags(v, false, false))
        },
        AluMode::Cmp => {
            let d = a + 256 - b;
            (a, spec_result_flags(wrap8(d), a < b, a % 16 < b % 16))
        },
    }
}

/// Whether a condition code holds under the given flags.
pub open spec fn spec_condition_holds(cc: CarryCode, f: Flags) -> bool {
    match cc {
        CarryCode::Nz => !f.zero,
        CarryCode::Z => f.zero,
        CarryCode::Nc => !f.carry,
        CarryCode::C => f.carry,
        CarryCode::Po => !f.parity,
        CarryCode::Pe => f.parity,
        CarryCode::P => !f.sign,
        CarryCode::N => f.sign,
    }
}

/// The state after pushing the 16-bit value `v`: the stack pointer moves
/// down by two (wrapping), then the value is stored little-endian at the
/// new stack pointer.
pub open spec fn spec_push16(s: MachineView, v: u16) -> MachineView {
    let nsp = wrap16(s.sp + 65534);
    MachineView {
        sp: nsp,
        mem: s.mem.update(nsp as int, (v % 256) as u8).update(
            wrap16(nsp + 1) as int,
            (v / 256) as u8,
        ),
        ..s
    }
}

/// The 16-bit value on top of the stack, read little-endian at the stack
/// pointer.
pub open spec fn spec_stack_top(s: MachineView) -> u16 {
    (s.mem[s.sp as int] + 256 * s.mem[wrap16(s.sp + 1) as int]) as u16
}

/// The state after popping: the stack pointer moves up by two (wrapping);
/// memory is untouched.
pub open spec fn spec_pop16(s: MachineView) -> MachineView {
    MachineView { sp: wrap16(s.sp + 2), ..s }
}

/// The flags after a single-register increment of the old byte `v`: zero,
/// sign and parity follow the result, the auxiliary carry is the carry
/// out of the low nibble, and the carry flag is untouched.
pub open spec fn spec_inr_flags(v: u8, f: Flags) -> Flags {
    spec_result_flags(wrap8(v + 1), f.carry, v % 16 == 15)
}

/// The flags after a single-register decrement of the old byte `v`: zero,
/// sign and parity follow the result, the auxiliary carry is the borrow
/// out of the low nibble, and the carry flag is untouched.
pub open spec fn spec_dcr_flags(v: u8, f: Flags) -> Flags {
    spec_result_flags(wrap8(v + 255), f.carry, v % 16 == 0)
}

/// Decimal adjustment of the accumulator `a` under flags `f`: the
/// standard two-nibble correction. Six is added to the low nibble when it
/// exceeds nine or the auxiliary carry is set; 0x60 is added when the
/// high nibble exceeds nine (counting a low-nibble overflow into it) or
/// the carry is set, and then the carry is set.
pub open spec fn spec_daa(a: u8, f: Flags) -> (u8, Flags) {
    let low = a % 16;
    let high = a / 16;
    let fix_low = low > 9 || f.aux_carry;
    let fix_high = f.carry || high > 9 || (high == 9 && low > 9);
    let adjust: int = (if fix_low {
        0x06int
    } else {
        0int
    }) + (if fix_high {
        0x60int
    } else {
        0int
    });
    let v = wrap8(a + adjust);
    (v, spec_result_flags(v, f.carry || fix_high, fix_low && low + 6 > 15))
}

/// The effect of one decoded instruction `i` on state `s`, whose
/// instruction pointer has already been advanced past the instruction's
/// bytes, and the outcome the step reports.
#[verifier::opaque]
pub open spec fn spec_apply(s: MachineView, i: Instruction) -> (MachineView, StepOutcome) {
    match i {
        Instruction::Nop => (s, StepOutcome::Continue),
        Instruction::Lxi(rp, v) => (spec_set_pair(s, rp, v), StepOutcome::Continue),
        Instruction::Stax(rp) => (
            MachineView {
                mem: s.mem.update(
                    spec_get_pair(s, rp) as int,
                    spec_read_register(s, Register::A),
                ),
                ..s
            },
            StepOutcome::Continue,
        ),
        Instruction::Inx(rp) => (
            spec_set_pair(s, rp, wrap16(spec_get_pair(s, rp) + 1)),
            StepOutcome::Continue,
        ),
        Instruction::Inr(r) => {
            let v = spec_read_register(s, r);
            let s1 = spec_write_register(s, r, wrap8(v + 1));
            (MachineView { flags: spec_inr_flags(v, s.flags), ..s1 }, StepOutcome::Continue)
        },
        Instruction::Dcr(r) => {
            let v = spec_read_register(s, r);
            let s1 = spec_write_register(s, r, wrap8(v + 255));
            (MachineView { flags: spec_dcr_flags(v, s.flags), ..s1 }, StepOutcome::Continue)
        },
        Instruction::Mvi(r, d) => (spec_write_register(s, r, d), StepOutcome::Continue),
        Instruction::Dad(rp) => {
            let sum = spec_get_pair(s, RegisterPair::HL) + spec_get_pair(s, rp);
            let s1 = spec_set_pair(s, RegisterPair::HL, wrap16(sum));
            (
                MachineView { flags: Flags { carry: sum > 65535, ..s.flags }, ..s1 },
                StepOutcome::Continue,
            )
        },
        Instruction::Ldax(rp) => (
            spec_write_register(s, Register::A, s.mem[spec_get_pair(s, rp) as int]),
            StepOutcome::Continue,
        ),
        Instruction::Dcx(rp) => (
            spec_set_pair(s, rp, wrap16(spec_get_pair(s, rp) + 65535)),
            StepOutcome::Continue,
        ),
        Instruction::Rlc => {
            let a = spec_read_register(s, Register::A);
            let s1 = spec_write_register(s, Register::A, (a << 1) | (a >> 7));
            (
                MachineView { flags: Flags { carry: a >= 128, ..s.flags }, ..s1 },
                StepOutcome::Continue,
            )
        },
        Instruction::Rrc => {
            let a = spec_read_register(s, Register::A);
            let s1 = spec_write_register(s, Register::A, (a >> 1) | (a << 7));
            (
                MachineView { flags: Flags { carry: a & 1 == 1, ..s.flags }, ..s1 },
                StepOutcome::Continue,
            )
        },
        Instruction::Ral => {
            let a = spec_read_register(s, Register::A);
            let cin: u8 = if s.flags.carry {
                1
            } else {
                0
            };
            let s1 = spec_write_register(s, Register::A, (a << 1) | cin);
            (
                MachineView { flags: Flags { carry: a >= 128, ..s.flags }, ..s1 },
                StepOutcome::Continue,
            )
        },
        Instruction::Rar => {
            let a = spec_read_register(s, Register::A);
            let cin: u8 = if s.flags.carry {
                0x80
            } else {
                0
            };
            let s1 = spec_write_register(s, Register::A, (a >> 1) | cin);
            (
                MachineView { flags: Flags { carry: a & 1 == 1, ..s.flags }, ..s1 },
                StepOutcome::Continue,
            )
        },
        Instruction::Shld(addr) => {
            let hl = spec_get_pair(s, RegisterPair::HL);
            (
                MachineView {
                    mem: s.mem.update(addr as int, (hl % 256) as u8).update(
                        wrap16(addr + 1) as int,
                        (hl / 256) as u8,
                    ),
                    ..s
                },
                StepOutcome::Continue,
            )
        },
        Instruction::Daa => {
            let (v, f) = spec_daa(spec_read_register(s, Register::A), s.flags);
            let s1 = spec_write_register(s, Register::A, v);
            (MachineView { flags: f, ..s1 }, StepOutcome::Continue)
        },
        Instruction::Lhld(addr) => {
            let v = (s.mem[addr as int] + 256 * s.mem[wrap16(addr + 1) as int]) as u16;
            (spec_set_pair(s, RegisterPair::HL, v), StepOutcome::Continue)
        },
        Instruction::Cma => (
            spec_write_register(s, Register::A, !spec_read_register(s, Register::A)),
            StepOutcome::Continue,
        ),
        Instruction::Sta(addr) => (
            MachineView {
                mem: s.mem.update(addr as int, spec_read_register(s, Register::A)),
                ..s
            },
            StepOutcome::Continue,
        ),
        Instruction::Stc => (
            MachineView { flags: Flags { carry: true, ..s.flags }, ..s },
            StepOutcome::Continue,
        ),
        Instruction::Lda(addr) => (
            spec_write_register(s, Register::A, s.mem[addr as int]),
            StepOutcome::Continue,
        ),
        Instruction::Cmc => (
            MachineView { flags: Flags { carry: !s.flags.carry, ..s.flags }, ..s },
            StepOutcome::Continue,
        ),
        Instruction::Mov(dst, src) => (
            spec_write_register(s, dst, spec_read_register(s, src)),
            StepOutcome::Continue,
        ),
        Instruction::Hlt => (MachineView { halted: true, ..s }, StepOutcome::Halted),
        Instruction::AluR(m, r) => {
            let (v, f) = spec_alu(m, spec_read_register(s, Register::A), spec_read_register(s, r), s.flags);
            let s1 = spec_write_register(s, Register::A, v);
            (MachineView { flags: f, ..s1 }, StepOutcome::Continue)
        },
        Instruction::Rcc(cc) => {
            if spec_condition_holds(cc, s.flags) {
                let target = spec_stack_top(s);
                (MachineView { ip: target, ..spec_pop16(s) }, StepOutcome::Continue)
            } else {
                (s, StepOutcome::Continue)
            }
        },
        Instruction::Pop(rp) => {
            let v = spec_stack_top(s);
            (spec_set_pair(spec_pop16(s), rp, v), StepOutcome::Continue)
        },
        Instruction::Jcc(cc, addr) => {
            if spec_condition_holds(cc, s.flags) {
                (MachineView { ip: addr, ..s }, StepOutcome::Continue)
            } else {
                (s, StepOutcome::Continue)
            }
        },
        Instruction::Jmp(addr) => (MachineView { ip: addr, ..s }, StepOutcome::Continue),
        Instruction::Ccc(cc, addr) => {
            if spec_condition_holds(cc, s.flags) {
                (MachineView { ip: addr, ..spec_push16(s, s.ip) }, StepOutcome::Continue)
            } else {
                (s, StepOutcome::Continue)
            }
        },
        Instruction::Push(rp) => (spec_push16(s, spec_get_pair(s, rp)), StepOutcome::Continue),
        Instruction::AluI(m, d) => {
            let (v, f) = spec_alu(m, spec_read_register(s, Register::A), d, s.flags);
            let s1 = spec_write_register(s, Register::A, v);
            (MachineView { flags: f, ..s1 }, StepOutcome::Continue)
        },
        Instruction::Rst(n) => (
            MachineView { ip: wrap16(8 * n), ..spec_push16(s, s.ip) },
            StepOutcome::Continue,
        ),
        Instruction::Ret => {
            let target = spec_stack_top(s);
            (MachineView { ip: target, ..spec_pop16(s) }, StepOutcome::Continue)
        },
        Instruction::Call(addr) => (
            MachineView { ip: addr, ..spec_push16(s, s.ip) },
            StepOutcome::Continue,
        ),
        Instruction::Out(port) => (
            s,
            StepOutcome::PortOutput(port, spec_read_register(s, Register::A)),
        ),
        Instruction::In(port) => (s, StepOutcome::PortInput(port)),
        Instruction::Xthl => {
            let hl = spec_get_pair(s, RegisterPair::HL);
            let top = spec_stack_top(s);
            let s1 = spec_set_pair(s, RegisterPair::HL, top);
            (
                MachineView {
                    mem: s1.mem.update(s.sp as int, (hl % 256) as u8).update(
                        wrap16(s.sp + 1) as int,
                        (hl / 256) as u8,
                    ),
                    ..s1
                },
                StepOutcome::Continue,
            )
        },
        Instruction::Pchl => (
            MachineView { ip: spec_get_pair(s, RegisterPair::HL), ..s },
            StepOutcome::Continue,
        ),
        Instruction::Di => (
            MachineView { interrupts_enabled: false, ..s },
            StepOutcome::Continue,
        ),
        Instruction::Sphl => (
            MachineView { sp: spec_get_pair(s, RegisterPair::HL), ..s },
            StepOutcome::Continue,
        ),
        Instruction::Ei => (
            MachineView { interrupts_enabled: true, ..s },
            StepOutcome::Continue,
        ),
        Instruction::Unimplemented(_) => {
            match s.policy {
                UnimplementedPolicy::Fatal => (
                    MachineView { halted: true, ..s },
                    StepOutcome::UnimplementedOpcode,
                ),
                UnimplementedPolicy::NoOp => (s, StepOutcome::Continue),
            }
        },
    }
}

/// One full step: nothing once halted; otherwise decode at the
/// instruction pointer (reporting truncation, without advancing, when the
/// trailing bytes of memory cannot hold the instruction), advance the
/// pointer past the instruction's bytes — wrapping to address zero when
/// the instruction ends exactly at the top of memory — and apply the
/// instruction's effect.
pub open spec fn spec_step(s: MachineView) -> (MachineView, StepOutcome) {
    if s.halted {
        (s, StepOutcome::Halted)
    } else {
        match spec_decode(s.mem, s.ip as int) {
            Some((i, n)) => spec_apply(MachineView { ip: wrap16(s.ip + n), ..s }, i),
            None => (s, StepOutcome::DecodeTruncated),
        }
    }
}

/// Pair round-trip: for any 16-bit value and any register pair, storing
/// the value into the pair and then reading the pair yields that value.
pub proof fn lemma_pair_round_trip(s: MachineView, rp: RegisterPair, v: u16)
    requires
        s.wf(),
    ensures
        spec_get_pair(spec_set_pair(s, rp, v), rp) == v,
{
}

/// Stack discipline: pushing a register pair and then popping into the
/// same pair restores the pair's value and restores the stack pointer to
/// what it was before the push.
pub proof fn lemma_stack_round_trip(s: MachineView, rp: RegisterPair)
    requires
        s.wf(),
    ensures
        ({
            let pushed = spec_push16(s, spec_get_pair(s, rp));
            let popped = spec_set_pair(spec_pop16(pushed), rp, spec_stack_top(pushed));
            &&& spec_get_pair(popped, rp) == spec_get_pair(s, rp)
            &&& popped.sp == s.sp
        }),
{
    let pushed = spec_push16(s, spec_get_pair(s, rp));
    assert(spec_stack_top(pushed) == spec_get_pair(s, rp));
    lemma_pair_round_trip(spec_pop16(pushed), rp, spec_stack_top(pushed));
}

/// Wraparound: incrementing a register holding 0xFF yields 0x00, with a
/// normal continue outcome, never a fault.
pub proof fn lemma_register_increment_wraps(s: MachineView, r: Register)
    requires
        s.wf(),
        spec_read_register(s, r) == 0xff,
    ensures
        spec_read_register(spec_apply(s, Instruction::Inr(r)).0, r) == 0x00,
        spec_apply(s, Instruction::Inr(r)).1 == StepOutcome::Continue,
{
    reveal(spec_apply);
}

/// Wraparound: decrementing a register pair holding 0x0000 yields 0xFFFF,
/// with a normal continue outcome, never a fault.
pub proof fn lemma_pair_decrement_wraps(s: MachineView, rp: RegisterPair)
    requires
        s.wf(),
        spec_get_pair(s, rp) == 0x0000,
    ensures
        spec_get_pair(spec_apply(s, Instruction::Dcx(rp)).0, rp) == 0xffff,
        spec_apply(s, Instruction::Dcx(rp)).1 == StepOutcome::Continue,
{
    reveal(spec_apply);
    lemma_pair_round_trip(s, rp, wrap16(spec_get_pair(s, rp) + 65535));
}

} // verus!
