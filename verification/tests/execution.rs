//! Tests of the execution engine: pair and stack round trips, wraparound,
//! flag updates, control flow, I/O delegation, and the step scenarios.

use emu8080::isa::Register;
use emu8080::isa::RegisterPair;
use emu8080::machine::Processor;
use emu8080::semantics::{StepOutcome, UnimplementedPolicy};

fn fresh() -> Processor {
    Processor::new(UnimplementedPolicy::Fatal)
}

#[test]
fn pair_round_trip_all_pairs() {
    let pairs = [RegisterPair::BC, RegisterPair::DE, RegisterPair::HL, RegisterPair::SP];
    let values = [0x0000u16, 0x0001, 0x1234, 0x00FF, 0xFF00, 0xFFFF];
    for rp in pairs {
        for v in values {
            let mut p = fresh();
            p.set_rp(rp, v);
            assert_eq!(p.get_rp(rp), v, "{rp:?} {v:#06x}");
        }
    }
}

#[test]
fn pair_views_share_register_slots() {
    let mut p = fresh();
    p.set_rp(RegisterPair::BC, 0x1234);
    // Little-endian window: B (the even slot) holds the low byte.
    assert_eq!(p.get_register(Register::B), 0x34);
    assert_eq!(p.get_register(Register::C), 0x12);
    // SP is dedicated storage: it does not alias any register slot.
    p.set_rp(RegisterPair::SP, 0xABCD);
    assert_eq!(p.get_register(Register::H), 0x00);
    assert_eq!(p.get_register(Register::L), 0x00);
    assert_eq!(p.get_register(Register::A), 0x00);
    assert_eq!(p.get_rp(RegisterPair::SP), 0xABCD);
}

#[test]
fn stack_discipline_push_pop() {
    let pairs = [RegisterPair::BC, RegisterPair::DE, RegisterPair::HL, RegisterPair::SP];
    for rp in pairs {
        let mut p = fresh();
        p.set_rp(RegisterPair::SP, 0x4000);
        p.set_rp(rp, 0xBEEF);
        let sp_before = p.get_rp(RegisterPair::SP);
        let v_before = p.get_rp(rp);
        p.push(rp);
        assert_eq!(p.stack_pointer(), sp_before.wrapping_sub(2));
        if rp != RegisterPair::SP {
            p.set_rp(rp, 0x0000);
        }
        p.pop(rp);
        assert_eq!(p.get_rp(rp), v_before, "{rp:?}");
        assert_eq!(p.stack_pointer(), sp_before, "{rp:?}");
    }
}

#[test]
fn stack_wraps_at_address_zero() {
    let mut p = fresh();
    // Stack pointer starts at zero: a push wraps to the top of memory.
    p.set_rp(RegisterPair::BC, 0x1234);
    p.push(RegisterPair::BC);
    assert_eq!(p.stack_pointer(), 0xFFFE);
    assert_eq!(p.read_memory(0xFFFE), 0x34);
    assert_eq!(p.read_memory(0xFFFF), 0x12);
    p.pop(RegisterPair::DE);
    assert_eq!(p.get_rp(RegisterPair::DE), 0x1234);
    assert_eq!(p.stack_pointer(), 0x0000);
}

#[test]
fn register_increment_wraps() {
    let mut p = fresh();
    p.set_register(Register::B, 0xFF);
    p.load(&vec![0x04]); // INR B
    assert_eq!(p.step(), StepOutcome::Continue);
    assert_eq!(p.get_register(Register::B), 0x00);
    let f = p.get_flags();
    assert!(f.zero);
    assert!(f.aux_carry);
    assert!(!f.carry, "increment must not touch the carry flag");
}

#[test]
fn pair_decrement_wraps() {
    let mut p = fresh();
    p.load(&vec![0x0B]); // DCX B
    assert_eq!(p.get_rp(RegisterPair::BC), 0x0000);
    assert_eq!(p.step(), StepOutcome::Continue);
    assert_eq!(p.get_rp(RegisterPair::BC), 0xFFFF);
}

#[test]
fn scenario_nop_advances_pointer() {
    let mut p = fresh();
    p.load(&vec![0x00]);
    assert_eq!(p.step(), StepOutcome::Continue);
    assert_eq!(p.instruction_pointer(), 1);
    assert!(!p.is_halted());
}

#[test]
fn scenario_lxi_loads_pair() {
    let mut p = fresh();
    p.load(&vec![0x01, 0x34, 0x12]);
    assert_eq!(p.step(), StepOutcome::Continue);
    assert_eq!(p.get_rp(RegisterPair::BC), 0x1234);
    assert_eq!(p.instruction_pointer(), 3);
}

#[test]
fn scenario_increment_then_halt() {
    let mut p = fresh();
    p.load(&vec![0x3E, 0x05, 0x3C, 0x76]); // MVI A,5 ; INR A ; HLT
    assert_eq!(p.step(), StepOutcome::Continue);
    assert_eq!(p.step(), StepOutcome::Continue);
    assert_eq!(p.step(), StepOutcome::Halted);
    assert_eq!(p.get_register(Register::A), 6);
    assert!(p.is_halted());
    // Once halted, stepping is a no-op that keeps reporting completion.
    let ip = p.instruction_pointer();
    assert_eq!(p.step(), StepOutcome::Halted);
    assert_eq!(p.instruction_pointer(), ip);
    assert_eq!(p.get_register(Register::A), 6);
}

#[test]
fn scenario_jump_sets_pointer() {
    let mut p = fresh();
    p.load(&vec![0xC3, 0x00, 0x00]); // JMP 0x0000
    assert_eq!(p.step(), StepOutcome::Continue);
    assert_eq!(p.instruction_pointer(), 0x0000);

    // The same jump taken from a different prior pointer value.
    let mut q = fresh();
    q.load(&vec![0x00, 0x00, 0x00, 0xC3, 0x00, 0x00]);
    q.set_instruction_pointer(3);
    assert_eq!(q.step(), StepOutcome::Continue);
    assert_eq!(q.instruction_pointer(), 0x0000);
}

#[test]
fn scenario_truncated_fetch() {
    let mut p = fresh();
    // A three-byte instruction whose opcode sits on the last memory cell.
    let mut program = vec![0x00u8; 65536];
    program[0xFFFF] = 0xC3;
    p.load(&program);
    p.set_instruction_pointer(0xFFFF);
    assert_eq!(p.step(), StepOutcome::DecodeTruncated);
    assert_eq!(p.instruction_pointer(), 0xFFFF);
    assert!(!p.is_halted());
    // The engine stops advancing: the report repeats.
    assert_eq!(p.step(), StepOutcome::DecodeTruncated);
}

#[test]
fn single_byte_fetch_at_top_of_memory_wraps() {
    let mut p = fresh();
    let mut program = vec![0x00u8; 65536];
    program[0xFFFF] = 0x3C; // INR A
    p.load(&program);
    p.set_instruction_pointer(0xFFFF);
    assert_eq!(p.step(), StepOutcome::Continue);
    assert_eq!(p.get_register(Register::A), 1);
    assert_eq!(p.instruction_pointer(), 0x0000);
}

#[test]
fn unimplemented_opcode_fatal_policy() {
    let mut p = Processor::new(UnimplementedPolicy::Fatal);
    p.load(&vec![0x08]);
    assert_eq!(p.step(), StepOutcome::UnimplementedOpcode);
    assert!(p.is_halted());
}

#[test]
fn unimplemented_opcode_noop_policy() {
    let mut p = Processor::new(UnimplementedPolicy::NoOp);
    p.load(&vec![0x08, 0x76]);
    assert_eq!(p.step(), StepOutcome::Continue);
    assert!(!p.is_halted());
    assert_eq!(p.instruction_pointer(), 1);
    assert_eq!(p.step(), StepOutcome::Halted);
}

#[test]
fn port_io_is_delegated() {
    let mut p = fresh();
    p.set_register(Register::A, 0x33);
    p.load(&vec![0xD3, 0x09, 0xDB, 0x07, 0x76]); // OUT 9 ; IN 7 ; HLT
    assert_eq!(p.step(), StepOutcome::PortOutput(0x09, 0x33));
    assert_eq!(p.step(), StepOutcome::PortInput(0x07));
    // The caller obtains the byte and completes the input.
    p.set_register(Register::A, 0x5A);
    assert_eq!(p.step(), StepOutcome::Halted);
    assert_eq!(p.get_register(Register::A), 0x5A);
}

#[test]
fn alu_add_sets_flags() {
    let mut p = fresh();
    p.set_register(Register::A, 0x0F);
    p.load(&vec![0xC6, 0x01]); // ADI 1
    assert_eq!(p.step(), StepOutcome::Continue);
    assert_eq!(p.get_register(Register::A), 0x10);
    let f = p.get_flags();
    assert!(!f.zero && !f.sign && !f.carry);
    assert!(f.aux_carry);
    assert!(!f.parity, "0x10 has one set bit: odd parity");
}

#[test]
fn alu_add_wraps_with_carry() {
    let mut p = fresh();
    p.set_register(Register::A, 0xFF);
    p.load(&vec![0xC6, 0x02]); // ADI 2
    assert_eq!(p.step(), StepOutcome::Continue);
    assert_eq!(p.get_register(Register::A), 0x01);
    let f = p.get_flags();
    assert!(f.carry && f.aux_carry && !f.zero);
}

#[test]
fn alu_subtract_borrow_and_compare() {
    let mut p = fresh();
    p.set_register(Register::A, 0x02);
    p.load(&vec![0xD6, 0x03]); // SUI 3
    assert_eq!(p.step(), StepOutcome::Continue);
    assert_eq!(p.get_register(Register::A), 0xFF);
    let f = p.get_flags();
    assert!(f.carry && f.sign && !f.zero);

    let mut q = fresh();
    q.set_register(Register::A, 0x42);
    q.load(&vec![0xFE, 0x42]); // CPI 0x42
    assert_eq!(q.step(), StepOutcome::Continue);
    assert_eq!(q.get_register(Register::A), 0x42, "compare keeps the accumulator");
    assert!(q.get_flags().zero);
    assert!(!q.get_flags().carry);
}

#[test]
fn alu_logic_clears_carry() {
    let mut p = fresh();
    p.set_register(Register::A, 0b1100_1010);
    p.set_register(Register::B, 0b1010_0110);
    p.load(&vec![0xA0, 0x76]); // ANA B ; HLT
    assert_eq!(p.step(), StepOutcome::Continue);
    assert_eq!(p.get_register(Register::A), 0b1000_0010);
    assert!(!p.get_flags().carry);

    let mut q = fresh();
    q.set_register(Register::A, 0xFF);
    q.load(&vec![0xAF]); // XRA A
    assert_eq!(q.step(), StepOutcome::Continue);
    assert_eq!(q.get_register(Register::A), 0x00);
    assert!(q.get_flags().zero);
    assert!(q.get_flags().parity, "zero has even parity");
}

#[test]
fn alu_carry_in_chains() {
    let mut p = fresh();
    p.set_register(Register::A, 0xFF);
    // ADI 2 ; ACI 0x10 ; STC ; RAL ; HLT
    p.load(&vec![0xC6, 0x02, 0xCE, 0x10, 0x37, 0x17, 0x76]);
    assert_eq!(p.step(), StepOutcome::Continue);
    assert_eq!(p.get_register(Register::A), 0x01);
    assert!(p.get_flags().carry);
    assert_eq!(p.step(), StepOutcome::Continue);
    assert_eq!(p.get_register(Register::A), 0x12, "add-with-carry takes the carry in");
    assert!(!p.get_flags().carry);
    assert_eq!(p.step(), StepOutcome::Continue);
    assert!(p.get_flags().carry, "STC sets the carry");
    assert_eq!(p.step(), StepOutcome::Continue);
    assert_eq!(p.get_register(Register::A), 0x25, "rotate left pulls the carry into bit 0");
    assert!(!p.get_flags().carry);
    assert_eq!(p.step(), StepOutcome::Halted);
}

#[test]
fn alu_borrow_in_and_rotate_right() {
    let mut p = fresh();
    p.set_register(Register::A, 0x10);
    // STC ; SBI 1 ; RAR ; CMC ; HLT
    p.load(&vec![0x37, 0xDE, 0x01, 0x1F, 0x3F, 0x76]);
    assert_eq!(p.step(), StepOutcome::Continue);
    assert_eq!(p.step(), StepOutcome::Continue);
    assert_eq!(p.get_register(Register::A), 0x0E, "subtract-with-borrow takes the borrow in");
    assert!(!p.get_flags().carry);
    assert_eq!(p.step(), StepOutcome::Continue);
    assert_eq!(p.get_register(Register::A), 0x07, "rotate right pulls the carry into bit 7");
    assert!(!p.get_flags().carry);
    assert_eq!(p.step(), StepOutcome::Continue);
    assert!(p.get_flags().carry, "CMC complements the carry");
    assert_eq!(p.step(), StepOutcome::Halted);
}

#[test]
fn rotate_left_through_bit_seven() {
    let mut p = fresh();
    p.set_register(Register::A, 0x85);
    p.load(&vec![0x07]); // RLC
    assert_eq!(p.step(), StepOutcome::Continue);
    assert_eq!(p.get_register(Register::A), 0x0B);
    assert!(p.get_flags().carry);
}

#[test]
fn decimal_adjust_two_nibbles() {
    let mut p = fresh();
    p.set_register(Register::A, 0x9B);
    p.load(&vec![0x27]); // DAA
    assert_eq!(p.step(), StepOutcome::Continue);
    assert_eq!(p.get_register(Register::A), 0x01);
    let f = p.get_flags();
    assert!(f.carry && f.aux_carry);
}

#[test]
fn memory_register_redirects_through_hl() {
    let mut p = fresh();
    p.set_rp(RegisterPair::HL, 0x2000);
    p.load(&vec![0x36, 0xAB, 0x7E, 0x76]); // MVI M,0xAB ; MOV A,M ; HLT
    assert_eq!(p.step(), StepOutcome::Continue);
    assert_eq!(p.read_memory(0x2000), 0xAB);
    assert_eq!(p.step(), StepOutcome::Continue);
    assert_eq!(p.get_register(Register::A), 0xAB);
}

#[test]
fn dad_adds_pairs_with_carry() {
    let mut p = fresh();
    p.set_rp(RegisterPair::HL, 0xF000);
    p.set_rp(RegisterPair::BC, 0x2000);
    p.load(&vec![0x09]); // DAD B
    assert_eq!(p.step(), StepOutcome::Continue);
    assert_eq!(p.get_rp(RegisterPair::HL), 0x1000);
    assert!(p.get_flags().carry);
    assert!(!p.get_flags().zero, "pair arithmetic leaves the other flags alone");
}

#[test]
fn call_and_return_round_trip() {
    let mut p = fresh();
    let mut program = vec![0xCD, 0x05, 0x00, 0x76, 0x00, 0xC9]; // CALL 5 ; HLT ; NOP ; RET
    program.resize(8, 0);
    p.set_rp(RegisterPair::SP, 0x4000);
    p.load(&program);
    assert_eq!(p.step(), StepOutcome::Continue);
    assert_eq!(p.instruction_pointer(), 0x0005);
    assert_eq!(p.stack_pointer(), 0x3FFE);
    assert_eq!(p.read_memory(0x3FFE), 0x03, "return address, low byte");
    assert_eq!(p.read_memory(0x3FFF), 0x00, "return address, high byte");
    assert_eq!(p.step(), StepOutcome::Continue);
    assert_eq!(p.instruction_pointer(), 0x0003);
    assert_eq!(p.stack_pointer(), 0x4000);
    assert_eq!(p.step(), StepOutcome::Halted);
}

#[test]
fn conditional_jump_taken_and_not_taken() {
    let mut p = fresh();
    // XRA A sets the zero flag; JZ is then taken.
    p.load(&vec![0xAF, 0xCA, 0x20, 0x00]);
    assert_eq!(p.step(), StepOutcome::Continue);
    assert_eq!(p.step(), StepOutcome::Continue);
    assert_eq!(p.instruction_pointer(), 0x0020);

    let mut q = fresh();
    // MVI A,1 ; then ORA A clears zero; JZ falls through.
    q.load(&vec![0x3E, 0x01, 0xB7, 0xCA, 0x20, 0x00, 0x76]);
    assert_eq!(q.step(), StepOutcome::Continue);
    assert_eq!(q.step(), StepOutcome::Continue);
    assert_eq!(q.step(), StepOutcome::Continue);
    assert_eq!(q.instruction_pointer(), 0x0006);
    assert_eq!(q.step(), StepOutcome::Halted);
}

#[test]
fn restart_pushes_and_vectors() {
    let mut p = fresh();
    p.set_rp(RegisterPair::SP, 0x4000);
    p.load(&vec![0xDF]); // RST 3
    assert_eq!(p.step(), StepOutcome::Continue);
    assert_eq!(p.instruction_pointer(), 0x0018);
    assert_eq!(p.stack_pointer(), 0x3FFE);
    assert_eq!(p.read_memory(0x3FFE), 0x01);
}

#[test]
fn exchange_stack_top_with_hl() {
    let mut p = fresh();
    p.set_rp(RegisterPair::SP, 0x4000);
    p.set_rp(RegisterPair::HL, 0x1234);
    p.set_rp(RegisterPair::BC, 0xABCD);
    p.load(&vec![0xC5, 0xE3]); // PUSH B ; XTHL
    assert_eq!(p.step(), StepOutcome::Continue);
    assert_eq!(p.step(), StepOutcome::Continue);
    assert_eq!(p.get_rp(RegisterPair::HL), 0xABCD);
    assert_eq!(p.read_memory(0x3FFE), 0x34);
    assert_eq!(p.read_memory(0x3FFF), 0x12);
    assert_eq!(p.stack_pointer(), 0x3FFE);
}

#[test]
fn interrupt_flag_and_pointer_transfers() {
    let mut p = fresh();
    p.set_rp(RegisterPair::HL, 0x0006);
    p.load(&vec![0xFB, 0xF3, 0xF9, 0x00, 0x00, 0x00, 0xE9]); // EI ; DI ; SPHL ; ... ; PCHL
    assert_eq!(p.step(), StepOutcome::Continue);
    assert!(p.interrupt_flag());
    assert_eq!(p.step(), StepOutcome::Continue);
    assert!(!p.interrupt_flag());
    assert_eq!(p.step(), StepOutcome::Continue);
    assert_eq!(p.stack_pointer(), 0x0006);
    p.set_instruction_pointer(0x0006);
    assert_eq!(p.step(), StepOutcome::Continue);
    assert_eq!(p.instruction_pointer(), 0x0006, "PCHL transfers HL into the pointer");
}

#[test]
fn load_copies_and_truncates() {
    let mut p = fresh();
    p.set_register(Register::A, 0x01);
    let program = vec![0x55u8; 70000];
    p.load(&program);
    assert_eq!(p.read_memory(0x0000), 0x55);
    assert_eq!(p.read_memory(0xFFFF), 0x55);
    assert_eq!(p.instruction_pointer(), 0, "load moves bytes, not the machine");
    assert_eq!(p.get_register(Register::A), 0x01);

    let mut q = fresh();
    q.load(&vec![0x11, 0x22]);
    assert_eq!(q.read_memory(0), 0x11);
    assert_eq!(q.read_memory(1), 0x22);
    assert_eq!(q.read_memory(2), 0x00, "beyond the program, memory stays zeroed");
}

#[test]
fn store_and_load_accumulator_forms() {
    let mut p = fresh();
    p.set_register(Register::A, 0x7F);
    p.set_rp(RegisterPair::DE, 0x3000);
    p.set_rp(RegisterPair::HL, 0x1234);
    // STAX D ; STA 0x3001 ; SHLD 0x3002 ; LDAX D ; LDA 0x3001 ; LHLD 0x3002
    p.load(&vec![
        0x12, 0x32, 0x01, 0x30, 0x22, 0x02, 0x30, 0x1A, 0x3A, 0x01, 0x30, 0x2A, 0x02, 0x30,
    ]);
    assert_eq!(p.step(), StepOutcome::Continue);
    assert_eq!(p.read_memory(0x3000), 0x7F);
    assert_eq!(p.step(), StepOutcome::Continue);
    assert_eq!(p.read_memory(0x3001), 0x7F);
    assert_eq!(p.step(), StepOutcome::Continue);
    assert_eq!(p.read_memory(0x3002), 0x34, "SHLD stores the pair low byte first");
    assert_eq!(p.read_memory(0x3003), 0x12);
    p.set_register(Register::A, 0x00);
    p.set_rp(RegisterPair::HL, 0x0000);
    assert_eq!(p.step(), StepOutcome::Continue);
    assert_eq!(p.get_register(Register::A), 0x7F);
    p.set_register(Register::A, 0x00);
    assert_eq!(p.step(), StepOutcome::Continue);
    assert_eq!(p.get_register(Register::A), 0x7F);
    assert_eq!(p.step(), StepOutcome::Continue);
    assert_eq!(p.get_rp(RegisterPair::HL), 0x1234);
}
