//! The execution engine: machine state and the fetch-decode-execute step,
//! verified against the model in `semantics`.

use vstd::prelude::*;

use crate::decoder::decode_at;
use crate::isa::{
    pair_base, register_slot, AluMode, CarryCode, Flags, Instruction, Register, RegisterPair,
};
use crate::semantics::{
    spec_alu, spec_apply, spec_condition_holds, spec_daa, spec_get_pair, spec_ones, spec_parity,
    spec_pop16, spec_push16, spec_read_register, spec_result_flags, spec_set_pair, spec_stack_top,
    spec_step, spec_write_register, wrap16, wrap8, MachineView, StepOutcome, UnimplementedPolicy,
    MEMORY_SIZE,
};

verus! {

/// `spec_ones` never exceeds its argument.
proof fn lemma_ones_le(n: nat)
    ensures
        spec_ones(n) <= n,
    decreases n,
{
    if n > 0 {
        lemma_ones_le(n / 2);
    }
}

/// Parity of a byte: true when `v` holds an even number of one bits.
pub fn parity(v: u8) -> (r: bool)
    ensures
        r == spec_parity(v),
{
    proof {
        lemma_ones_le(v as nat);
    }
    let mut x = v;
    let mut count: u8 = 0;
    while x > 0
        invariant
            count + spec_ones(x as nat) == spec_ones(v as nat),
            spec_ones(v as nat) <= 255,
        decreases x,
    {
        if x % 2 == 1 {
            count = count + 1;
        }
        x = x / 2;
    }
    count % 2 == 0
}

/// The flags an 8-bit result `v` produces, joined with the given carry
/// and auxiliary-carry flags.
pub fn result_flags(v: u8, carry: bool, aux_carry: bool) -> (r: Flags)
    ensures
        r == spec_result_flags(v, carry, aux_carry),
{
    Flags { zero: v == 0, sign: v >= 128, parity: parity(v), carry, aux_carry }
}

/// One ALU operation between accumulator value `a` and operand byte `b`
/// under incoming flags `f`: the result byte (the unchanged `a` for
/// compare) and the new flags.
#[verifier::rlimit(100)]
pub fn alu(m: AluMode, a: u8, b: u8, f: Flags) -> (r: (u8, Flags))
    ensures
        r == spec_alu(m, a, b, f),
{
    match m {
        AluMode::Add => {
            let sum: u16 = a as u16 + b as u16;
            let v = (sum % 256) as u8;
            (v, result_flags(v, sum > 255, a % 16 + b % 16 > 15))
        },
        AluMode::Adc => {
            let c: u16 = if f.carry {
                1
            } else {
                0
            };
            let sum: u16 = a as u16 + b as u16 + c;
            let v = (sum % 256) as u8;
            (v, result_flags(v, sum > 255, (a % 16) as u16 + (b % 16) as u16 + c > 15))
        },
        AluMode::Sub => {
            let v = ((a as u16 + 256 - b as u16) % 256) as u8;
            (v, result_flags(v, a < b, a % 16 < b % 16))
        },
        AluMode::Sbb => {
            let c: u16 = if f.carry {
                1
            } else {
                0
            };
            let total: u16 = b as u16 + c;
            let v = ((a as u16 + 256 - total) % 256) as u8;
            (v, result_flags(v, (a as u16) < total, ((a % 16) as u16) < (b % 16) as u16 + c))
        },
        AluMode::Ana => {
            let v = a & b;
            (v, result_flags(v, false, (a | b) & 0x08 == 0x08))
        },
        AluMode::Xra => {
            let v = a ^ b;
            (v, result_flags(v, false, false))
        },
        AluMode::Ora => {
            let v = a | b;
            (v, result_flags(v, false, false))
        },
        AluMode::Cmp => {
            let v = ((a as u16 + 256 - b as u16) % 256) as u8;
            (a, result_flags(v, a < b, a % 16 < b % 16))
        },
    }
}

/// Whether a condition code holds under the given flags.
pub fn condition_holds(cc: CarryCode, f: Flags) -> (r: bool)
    ensures
        r == spec_condition_holds(cc, f),
{
    match cc {
        CarryCode::Nz => !f.zero,
        CarryCode::Z => f.zero,
        CarryCode::Nc => !f.carry,
        CarryCode::C => f.carry,
        CarryCode::Po => !f.parity,
        CarryCode::Pe => f.parity,
        CarryCode::P => !f.sign,
        CarryCode::N => f.sign,
    }
}

/// Decimal adjustment of the accumulator value `a` under flags `f`.
pub fn daa_adjust(a: u8, f: Flags) -> (r: (u8, Flags))
    ensures
        r == spec_daa(a, f),
{
    let low = a % 16;
    let high = a / 16;
    let fix_low = low > 9 || f.aux_carry;
    let fix_high = f.carry || high > 9 || (high == 9 && low > 9);
    let adjust: u16 = (if fix_low {
        0x06
    } else {
        0
    }) + (if fix_high {
        0x60u16
    } else {
        0
    });
    let v = ((a as u16 + adjust) % 256) as u8;
    (v, result_flags(v, f.carry || fix_high, fix_low && low + 6 > 15))
}

/// `a + d`, wrapping modulo 65536.
fn wadd16(a: u16, d: u16) -> (r: u16)
    ensures
        r == wrap16(a + d),
{
    ((a as u32 + d as u32) % 65536) as u16
}

/// A vector of `n` zero bytes.
fn zero_vec(n: usize) -> (r: Vec<u8>)
    ensures
        r@.len() == n,
        forall|i: int| 0 <= i < n ==> r@[i] == 0,
{
    let mut v: Vec<u8> = Vec::new();
    while v.len() < n
        invariant
            v@.len() <= n,
            forall|i: int| 0 <= i < v@.len() ==> v@[i] == 0,
        decreases n - v@.len(),
    {
        v.push(0);
    }
    v
}

/// The machine: register file, memory, stack pointer, instruction
/// pointer, flags, interrupt flag, run state, and the policy for
/// architecturally undefined opcodes.
///
/// It owns its state exclusively; its abstract value is a `MachineView`
/// and every method's contract is stated over that view.
pub struct Processor {
    registers: Vec<u8>,
    memory: Vec<u8>,
    sp: u16,
    instruction_pointer: u16,
    flags: Flags,
    interrupts_enabled: bool,
    halted: bool,
    policy: UnimplementedPolicy,
}

impl View for Processor {
    type V = MachineView;

    closed spec fn view(&self) -> MachineView {
        MachineView {
            regs: self.registers@,
            mem: self.memory@,
            sp: self.sp,
            ip: self.instruction_pointer,
            flags: self.flags,
            interrupts_enabled: self.interrupts_enabled,
            halted: self.halted,
            policy: self.policy,
        }
    }
}

impl Processor {
    /// Well-formedness: full register file and full 16-bit memory.
    pub open spec fn wf(&self) -> bool {
        self@.wf()
    }

    /// A machine at reset: zeroed registers and memory, stack pointer and
    /// instruction pointer at zero, flags cleared, interrupts disabled,
    /// running, with the given undefined-opcode policy.
    pub fn new(policy: UnimplementedPolicy) -> (r: Processor)
        ensures
            r.wf(),
            forall|i: int| 0 <= i < 8 ==> r@.regs[i] == 0,
            forall|i: int| 0 <= i < MEMORY_SIZE ==> r@.mem[i] == 0,
            r@.sp == 0,
            r@.ip == 0,
            r@.flags == Flags::spec_cleared(),
            !r@.interrupts_enabled,
            !r@.halted,
            r@.policy == policy,
    {
        Processor {
            registers: zero_vec(8),
            memory: zero_vec(MEMORY_SIZE),
            sp: 0,
            instruction_pointer: 0,
            flags: Flags::cleared(),
            interrupts_enabled: false,
            halted: false,
            policy,
        }
    }

    /// Copy a program into memory starting at address zero, in order,
    /// truncating if it exceeds the address space; every other memory
    /// cell, and all the rest of the machine state, is untouched.
    pub fn load(&mut self, program: &Vec<u8>)
        requires
            old(self).wf(),
        ensures
            final(self).wf(),
            forall|i: int|
                0 <= i < program@.len() && i < MEMORY_SIZE ==> final(self)@.mem[i] == program@[i],
            forall|i: int|
                program@.len() <= i < MEMORY_SIZE ==> final(self)@.mem[i] == old(self)@.mem[i],
            final(self)@ == (MachineView { mem: final(self)@.mem, ..old(self)@ }),
    {
        let count = if program.len() < MEMORY_SIZE {
            program.len()
        } else {
            MEMORY_SIZE
        };
        let mut i: usize = 0;
        while i < count
            invariant
                old(self).wf(),
                self.wf(),
                count <= program@.len(),
                count <= MEMORY_SIZE,
                i <= count,
                count == if program@.len() < MEMORY_SIZE {
                    program@.len() as int
                } else {
                    MEMORY_SIZE as int
                },
                forall|j: int| 0 <= j < i ==> self@.mem[j] == program@[j],
                forall|j: int| i <= j < MEMORY_SIZE ==> self@.mem[j] == old(self)@.mem[j],
                self@ == (MachineView { mem: self@.mem, ..old(self)@ }),
            decreases count - i,
        {
            self.memory.set(i, program[i]);
            i = i + 1;
        }
    }

    /// Read a one-byte register slot directly. The caller redirects `M`
    /// (memory at the HL address) before generic access.
    pub fn get_register(&self, r: Register) -> (v: u8)
        requires
            self.wf(),
            r != Register::M,
        ensures
            v == self@.regs[crate::isa::register_index(r)],
    {
        let i = register_slot(r);
        self.registers[i]
    }

    /// Write a one-byte register slot directly. The caller redirects `M`
    /// (memory at the HL address) before generic access.
    pub fn set_register(&mut self, r: Register, v: u8)
        requires
            old(self).wf(),
            r != Register::M,
        ensures
            final(self).wf(),
            final(self)@ == spec_write_register(old(self)@, r, v),
    {
        let i = register_slot(r);
        self.registers.set(i, v);
        proof {
            assert(final(self)@ =~= spec_write_register(old(self)@, r, v));
        }
    }

    /// Read a register operand, redirecting `M` through memory at the HL
    /// address.
    fn read_register(&self, r: Register) -> (v: u8)
        requires
            self.wf(),
        ensures
            v == spec_read_register(self@, r),
    {
        match r {
            Register::M => {
                let addr = self.get_rp(RegisterPair::HL);
                self.memory[addr as usize]
            },
            _ => {
                let i = register_slot(r);
                self.registers[i]
            },
        }
    }

    /// Write a register operand, redirecting `M` through memory at the HL
    /// address.
    fn write_register(&mut self, r: Register, v: u8)
        requires
            old(self).wf(),
        ensures
            final(self).wf(),
            final(self)@ == spec_write_register(old(self)@, r, v),
    {
        match r {
            Register::M => {
                let addr = self.get_rp(RegisterPair::HL);
                self.memory.set(addr as usize, v);
            },
            _ => {
                let i = register_slot(r);
                self.registers.set(i, v);
            },
        }
        proof {
            assert(final(self)@ =~= spec_write_register(old(self)@, r, v));
        }
    }

    /// The 16-bit value of a register pair: the two backing slots read
    /// little-endian for BC/DE/HL, the dedicated stack pointer for SP.
    pub fn get_rp(&self, rp: RegisterPair) -> (v: u16)
        requires
            self.wf(),
        ensures
            v == spec_get_pair(self@, rp),
    {
        match rp {
            RegisterPair::SP => self.sp,
            _ => {
                let b = pair_base(rp);
                self.registers[b] as u16 + 256 * self.registers[b + 1] as u16
            },
        }
    }

    /// Store a 16-bit value into a register pair: little-endian across
    /// the two backing slots for BC/DE/HL, the dedicated stack pointer
    /// for SP.
    pub fn set_rp(&mut self, rp: RegisterPair, v: u16)
        requires
            old(self).wf(),
        ensures
            final(self).wf(),
            final(self)@ == spec_set_pair(old(self)@, rp, v),
    {
        match rp {
            RegisterPair::SP => {
                self.sp = v;
            },
            _ => {
                let b = pair_base(rp);
                self.registers.set(b, (v % 256) as u8);
                self.registers.set(b + 1, (v / 256) as u8);
            },
        }
        proof {
            assert(final(self)@ =~= spec_set_pair(old(self)@, rp, v));
        }
    }

    /// Read one memory cell.
    pub fn read_memory(&self, addr: u16) -> (v: u8)
        requires
            self.wf(),
        ensures
            v == self@.mem[addr as int],
    {
        self.memory[addr as usize]
    }

    /// Write one memory cell; nothing else changes.
    pub fn write_memory(&mut self, addr: u16, v: u8)
        requires
            old(self).wf(),
        ensures
            final(self).wf(),
            final(self)@ == (MachineView { mem: old(self)@.mem.update(addr as int, v), ..old(self)@ }),
    {
        self.memory.set(addr as usize, v);
        proof {
            assert(final(self)@ =~= (MachineView {
                mem: old(self)@.mem.update(addr as int, v),
                ..old(self)@
            }));
        }
    }

    /// Push a 16-bit value: the stack pointer moves down by two
    /// (wrapping), then the value is stored little-endian at the new
    /// stack pointer.
    fn push16(&mut self, v: u16)
        requires
            old(self).wf(),
        ensures
            final(self).wf(),
            final(self)@ == spec_push16(old(self)@, v),
    {
        let nsp = wadd16(self.sp, 65534);
        self.sp = nsp;
        self.memory.set(nsp as usize, (v % 256) as u8);
        let hi_addr = wadd16(nsp, 1);
        self.memory.set(hi_addr as usize, (v / 256) as u8);
        proof {
            assert(final(self)@ =~= spec_push16(old(self)@, v));
        }
    }

    /// Pop a 16-bit value: read little-endian at the stack pointer, then
    /// move the stack pointer up by two (wrapping).
    fn pop16(&mut self) -> (v: u16)
        requires
            old(self).wf(),
        ensures
            final(self).wf(),
            v == spec_stack_top(old(self)@),
            final(self)@ == spec_pop16(old(self)@),
    {
        let lo = self.memory[self.sp as usize];
        let hi_addr = wadd16(self.sp, 1);
        let hi = self.memory[hi_addr as usize];
        self.sp = wadd16(self.sp, 2);
        proof {
            assert(final(self)@ =~= spec_pop16(old(self)@));
        }
        lo as u16 + 256 * hi as u16
    }

    /// Push a register pair's value onto the stack.
    pub fn push(&mut self, rp: RegisterPair)
        requires
            old(self).wf(),
        ensures
            final(self).wf(),
            final(self)@ == spec_push16(old(self)@, spec_get_pair(old(self)@, rp)),
    {
        let v = self.get_rp(rp);
        self.push16(v);
    }

    /// Pop the top of the stack into a register pair.
    pub fn pop(&mut self, rp: RegisterPair)
        requires
            old(self).wf(),
        ensures
            final(self).wf(),
            final(self)@ == spec_set_pair(spec_pop16(old(self)@), rp, spec_stack_top(old(self)@)),
    {
        let v = self.pop16();
        self.set_rp(rp, v);
    }

    /// The data-transfer instructions of `spec_apply`: register, pair,
    /// memory and stack moves.
    #[verifier::rlimit(100)]
    #[verifier::spinoff_prover]
    fn apply_transfer(&mut self, i: Instruction) -> (r: StepOutcome)
        requires
            old(self).wf(),
            i is Nop || i is Lxi || i is Stax || i is Ldax || i is Mvi || i is Mov || i is Sta
                || i is Lda || i is Shld || i is Lhld || i is Sphl || i is Xthl || i is Push
                || i is Pop,
        ensures
            final(self).wf(),
            final(self)@ == spec_apply(old(self)@, i).0,
            r == spec_apply(old(self)@, i).1,
    {
        proof {
            reveal(crate::semantics::spec_apply);
        }
        match i {
            Instruction::Nop => StepOutcome::Continue,
            Instruction::Lxi(rp, v) => {
                self.set_rp(rp, v);
                StepOutcome::Continue
            },
            Instruction::Stax(rp) => {
                let addr = self.get_rp(rp);
                let a = self.get_register(Register::A);
                self.write_memory(addr, a);
                StepOutcome::Continue
            },
            Instruction::Ldax(rp) => {
                let addr = self.get_rp(rp);
                let v = self.read_memory(addr);
                self.set_register(Register::A, v);
                StepOutcome::Continue
            },
            Instruction::Mvi(r, d) => {
                self.write_register(r, d);
                StepOutcome::Continue
            },
            Instruction::Mov(dst, src) => {
                let v = self.read_register(src);
                self.write_register(dst, v);
                StepOutcome::Continue
            },
            Instruction::Sta(addr) => {
                let a = self.get_register(Register::A);
                self.write_memory(addr, a);
                StepOutcome::Continue
            },
            Instruction::Lda(addr) => {
                let v = self.read_memory(addr);
                self.set_register(Register::A, v);
                StepOutcome::Continue
            },
            Instruction::Shld(addr) => {
                let hl = self.get_rp(RegisterPair::HL);
                self.write_memory(addr, (hl % 256) as u8);
                let hi_addr = wadd16(addr, 1);
                self.write_memory(hi_addr, (hl / 256) as u8);
                StepOutcome::Continue
            },
            Instruction::Lhld(addr) => {
                let lo = self.read_memory(addr);
                let hi_addr = wadd16(addr, 1);
                let hi = self.read_memory(hi_addr);
                self.set_rp(RegisterPair::HL, lo as u16 + 256 * hi as u16);
                StepOutcome::Continue
            },
            Instruction::Sphl => {
                let hl = self.get_rp(RegisterPair::HL);
                self.sp = hl;
                StepOutcome::Continue
            },
            Instruction::Xthl => {
                let hl = self.get_rp(RegisterPair::HL);
                let sp = self.sp;
                let lo = self.read_memory(sp);
                let hi_addr = wadd16(sp, 1);
                let hi = self.read_memory(hi_addr);
                self.set_rp(RegisterPair::HL, lo as u16 + 256 * hi as u16);
                self.write_memory(sp, (hl % 256) as u8);
                self.write_memory(hi_addr, (hl / 256) as u8);
                StepOutcome::Continue
            },
            Instruction::Push(rp) => {
                self.push(rp);
                StepOutcome::Continue
            },
            Instruction::Pop(rp) => {
                self.pop(rp);
                StepOutcome::Continue
            },
            _ => StepOutcome::Continue,
        }
    }

    /// The arithmetic, logic, rotate and flag instructions of
    /// `spec_apply`.
    #[verifier::rlimit(100)]
    #[verifier::spinoff_prover]
    fn apply_arith(&mut self, i: Instruction) -> (r: StepOutcome)
        requires
            old(self).wf(),
            i is Inx || i is Inr || i is Dcr || i is Dad || i is Dcx || i is Rlc || i is Rrc
                || i is Ral || i is Rar || i is Daa || i is Cma || i is Stc || i is Cmc
                || i is AluR || i is AluI,
        ensures
            final(self).wf(),
            final(self)@ == spec_apply(old(self)@, i).0,
            r == spec_apply(old(self)@, i).1,
    {
        proof {
            reveal(crate::semantics::spec_apply);
        }
        match i {
            Instruction::Inx(rp) => {
                let p = self.get_rp(rp);
                let np = wadd16(p, 1);
                self.set_rp(rp, np);
                StepOutcome::Continue
            },
            Instruction::Inr(r) => {
                let v = self.read_register(r);
                let res = ((v as u16 + 1) % 256) as u8;
                assert(res == wrap8(v + 1));
                let f = result_flags(res, self.flags.carry, v % 16 == 15);
                self.write_register(r, res);
                self.flags = f;
                StepOutcome::Continue
            },
            Instruction::Dcr(r) => {
                let v = self.read_register(r);
                let res = ((v as u16 + 255) % 256) as u8;
                assert(res == wrap8(v + 255));
                let f = result_flags(res, self.flags.carry, v % 16 == 0);
                self.write_register(r, res);
                self.flags = f;
                StepOutcome::Continue
            },
            Instruction::Dad(rp) => {
                let hl = self.get_rp(RegisterPair::HL);
                let o = self.get_rp(rp);
                let sum: u32 = hl as u32 + o as u32;
                self.set_rp(RegisterPair::HL, (sum % 65536) as u16);
                let mut f = self.flags;
                f.carry = sum > 65535;
                self.flags = f;
                StepOutcome::Continue
            },
            Instruction::Dcx(rp) => {
                let p = self.get_rp(rp);
                let np = wadd16(p, 65535);
                self.set_rp(rp, np);
                StepOutcome::Continue
            },
            Instruction::Rlc => {
                let a = self.get_register(Register::A);
                self.set_register(Register::A, (a << 1) | (a >> 7));
                let mut f = self.flags;
                f.carry = a >= 128;
                self.flags = f;
                StepOutcome::Continue
            },
            Instruction::Rrc => {
                let a = self.get_register(Register::A);
                self.set_register(Register::A, (a >> 1) | (a << 7));
                let mut f = self.flags;
                f.carry = a & 1 == 1;
                self.flags = f;
                StepOutcome::Continue
            },
            Instruction::Ral => {
                let a = self.get_register(Register::A);
                let cin: u8 = if self.flags.carry {
                    1
                } else {
                    0
                };
                self.set_register(Register::A, (a << 1) | cin);
                let mut f = self.flags;
                f.carry = a >= 128;
                self.flags = f;
                StepOutcome::Continue
            },
            Instruction::Rar => {
                let a = self.get_register(Register::A);
                let cin: u8 = if self.flags.carry {
                    0x80
                } else {
                    0
                };
                self.set_register(Register::A, (a >> 1) | cin);
                let mut f = self.flags;
                f.carry = a & 1 == 1;
                self.flags = f;
                StepOutcome::Continue
            },
            Instruction::Daa => {
                let a = self.get_register(Register::A);
                let (v, f) = daa_adjust(a, self.flags);
                self.set_register(Register::A, v);
                self.flags = f;
                StepOutcome::Continue
            },
            Instruction::Cma => {
                let a = self.get_register(Register::A);
                self.set_register(Register::A, !a);
                StepOutcome::Continue
            },
            Instruction::Stc => {
                let mut f = self.flags;
                f.carry = true;
                self.flags = f;
                StepOutcome::Continue
            },
            Instruction::Cmc => {
                let mut f = self.flags;
                f.carry = !f.carry;
                self.flags = f;
                StepOutcome::Continue
            },
            Instruction::AluR(m, r) => {
                let a = self.get_register(Register::A);
                let b = self.read_register(r);
                let (v, f) = alu(m, a, b, self.flags);
                self.set_register(Register::A, v);
                self.flags = f;
                StepOutcome::Continue
            },
            Instruction::AluI(m, d) => {
                let a = self.get_register(Register::A);
                let (v, f) = alu(m, a, d, self.flags);
                self.set_register(Register::A, v);
                self.flags = f;
                StepOutcome::Continue
            },
            _ => StepOutcome::Continue,
        }
    }

    /// The control-flow, I/O, interrupt and run-state instructions of
    /// `spec_apply`.
    #[verifier::rlimit(100)]
    #[verifier::spinoff_prover]
    fn apply_control(&mut self, i: Instruction) -> (r: StepOutcome)
        requires
            old(self).wf(),
            i is Rcc || i is Jcc || i is Jmp || i is Ccc || i is Rst || i is Ret || i is Call
                || i is Pchl || i is Hlt || i is Di || i is Ei || i is In || i is Out
                || i is Unimplemented,
        ensures
            final(self).wf(),
            final(self)@ == spec_apply(old(self)@, i).0,
            r == spec_apply(old(self)@, i).1,
    {
        proof {
            reveal(crate::semantics::spec_apply);
        }
        match i {
            Instruction::Rcc(cc) => {
                if condition_holds(cc, self.flags) {
                    let target = self.pop16();
                    self.instruction_pointer = target;
                }
                StepOutcome::Continue
            },
            Instruction::Jcc(cc, addr) => {
                if condition_holds(cc, self.flags) {
                    self.instruction_pointer = addr;
                }
                StepOutcome::Continue
            },
            Instruction::Jmp(addr) => {
                self.instruction_pointer = addr;
                StepOutcome::Continue
            },
            Instruction::Ccc(cc, addr) => {
                if condition_holds(cc, self.flags) {
                    let ra = self.instruction_pointer;
                    self.push16(ra);
                    self.instruction_pointer = addr;
                }
                StepOutcome::Continue
            },
            Instruction::Rst(n) => {
                let ra = self.instruction_pointer;
                self.push16(ra);
                self.instruction_pointer = 8 * n as u16;
                StepOutcome::Continue
            },
            Instruction::Ret => {
                let target = self.pop16();
                self.instruction_pointer = target;
                StepOutcome::Continue
            },
            Instruction::Call(addr) => {
                let ra = self.instruction_pointer;
                self.push16(ra);
                self.instruction_pointer = addr;
                StepOutcome::Continue
            },
            Instruction::Pchl => {
                let hl = self.get_rp(RegisterPair::HL);
                self.instruction_pointer = hl;
                StepOutcome::Continue
            },
            Instruction::Hlt => {
                self.halted = true;
                StepOutcome::Halted
            },
            Instruction::Di => {
                self.interrupts_enabled = false;
                StepOutcome::Continue
            },
            Instruction::Ei => {
                self.interrupts_enabled = true;
                StepOutcome::Continue
            },
            Instruction::In(port) => StepOutcome::PortInput(port),
            Instruction::Out(port) => {
                let a = self.get_register(Register::A);
                StepOutcome::PortOutput(port, a)
            },
            Instruction::Unimplemented(_) => {
                match self.policy {
                    UnimplementedPolicy::Fatal => {
                        self.halted = true;
                        StepOutcome::UnimplementedOpcode
                    },
                    UnimplementedPolicy::NoOp => StepOutcome::Continue,
                }
            },
            _ => StepOutcome::Continue,
        }
    }

    /// Apply one decoded instruction to the machine state, the
    /// instruction pointer already advanced past its bytes, and report
    /// the outcome; exactly `spec_apply`.
    fn apply(&mut self, i: Instruction) -> (r: StepOutcome)
        requires
            old(self).wf(),
        ensures
            final(self).wf(),
            final(self)@ == spec_apply(old(self)@, i).0,
            r == spec_apply(old(self)@, i).1,
    {
        match i {
            Instruction::Nop | Instruction::Lxi(_, _) | Instruction::Stax(_)
                | Instruction::Ldax(_) | Instruction::Mvi(_, _) | Instruction::Mov(_, _)
                | Instruction::Sta(_) | Instruction::Lda(_) | Instruction::Shld(_)
                | Instruction::Lhld(_) | Instruction::Sphl | Instruction::Xthl
                | Instruction::Push(_) | Instruction::Pop(_) => self.apply_transfer(i),
            Instruction::Inx(_) | Instruction::Inr(_) | Instruction::Dcr(_)
                | Instruction::Dad(_) | Instruction::Dcx(_) | Instruction::Rlc
                | Instruction::Rrc | Instruction::Ral | Instruction::Rar | Instruction::Daa
                | Instruction::Cma | Instruction::Stc | Instruction::Cmc
                | Instruction::AluR(_, _) | Instruction::AluI(_, _) => self.apply_arith(i),
            _ => self.apply_control(i),
        }
    }

    /// One fetch-decode-execute step.
    ///
    /// Once halted, a step is a no-op that reports `Halted`. A truncated
    /// trailing instruction (its operand bytes would lie past the top of
    /// memory) leaves the machine unchanged and reports
    /// `DecodeTruncated`. Otherwise the instruction pointer advances by
    /// one per consumed byte (wrapping to address zero past the top of
    /// memory) and the instruction's effect is applied; exactly
    /// `spec_step`.
    #[verifier::rlimit(100)]
    #[verifier::spinoff_prover]
    pub fn step(&mut self) -> (r: StepOutcome)
        requires
            old(self).wf(),
        ensures
            final(self).wf(),
            final(self)@ == spec_step(old(self)@).0,
            r == spec_step(old(self)@).1,
    {
        if self.halted {
            return StepOutcome::Halted;
        }
        let ip = self.instruction_pointer;
        match decode_at(&self.memory, ip as usize) {
            None => StepOutcome::DecodeTruncated,
            Some((instruction, n)) => {
                let next: usize = ip as usize + n;
                let wrapped: u16 = if next >= 65536 {
                    (next - 65536) as u16
                } else {
                    next as u16
                };
                assert(wrapped == wrap16(ip + n));
                self.instruction_pointer = wrapped;
                self.apply(instruction)
            },
        }
    }

    /// The instruction pointer: address of the next byte to fetch.
    pub fn instruction_pointer(&self) -> (r: u16)
        ensures
            r == self@.ip,
    {
        self.instruction_pointer
    }

    /// Move the instruction pointer; nothing else changes.
    pub fn set_instruction_pointer(&mut self, addr: u16)
        requires
            old(self).wf(),
        ensures
            final(self).wf(),
            final(self)@ == (MachineView { ip: addr, ..old(self)@ }),
    {
        self.instruction_pointer = addr;
        proof {
            assert(final(self)@ =~= (MachineView { ip: addr, ..old(self)@ }));
        }
    }

    /// The stack pointer.
    pub fn stack_pointer(&self) -> (r: u16)
        ensures
            r == self@.sp,
    {
        self.sp
    }

    /// Whether the machine has halted.
    pub fn is_halted(&self) -> (r: bool)
        ensures
            r == self@.halted,
    {
        self.halted
    }

    /// The condition flags.
    pub fn get_flags(&self) -> (r: Flags)
        ensures
            r == self@.flags,
    {
        self.flags
    }

    /// The process-wide interrupt-enable flag.
    pub fn interrupt_flag(&self) -> (r: bool)
        ensures
            r == self@.interrupts_enabled,
    {
        self.interrupts_enabled
    }
}

} // verus!
