use crimson6502::cpu::DecodeError;
use crimson6502::instruction_evaluation::{
    cycles_transfer, evaluate_load, evaluate_nop, evaluate_store, evaluate_transfer, set_flags_transfer,
    InstructionResult,
};
use crimson6502::util::{bytes_to_word, pages_differ};
use crimson6502::AddressingMode::{Absolute, Immediate, Implied, Indirect, ZeroPage};
use crimson6502::IndexedBy::{NoIndex, X, Y};
use crimson6502::{
    AddressingMode, CPUFlags, CPUState, CPUStats, Flag, IndexedBy, Instruction, Memory, Mnemonic, CPU,
};

fn cpu_with(program: &[u8]) -> CPU {
    let mut cpu = CPU::new(CPUState::new(), Memory::new());
    cpu.load(0, program);
    cpu
}

fn documented_opcodes() -> Vec<(u8, Mnemonic, AddressingMode)> {
    vec![
        (0xA9, Mnemonic::LDA, Immediate),
        (0xA5, Mnemonic::LDA, ZeroPage(NoIndex)),
        (0xB5, Mnemonic::LDA, ZeroPage(X)),
        (0xAD, Mnemonic::LDA, Absolute(NoIndex)),
        (0xBD, Mnemonic::LDA, Absolute(X)),
        (0xB9, Mnemonic::LDA, Absolute(Y)),
        (0xA1, Mnemonic::LDA, Indirect(X)),
        (0xB1, Mnemonic::LDA, Indirect(Y)),
        (0xA2, Mnemonic::LDX, Immediate),
        (0xA6, Mnemonic::LDX, ZeroPage(NoIndex)),
        (0xB6, Mnemonic::LDX, ZeroPage(Y)),
        (0xAE, Mnemonic::LDX, Absolute(NoIndex)),
        (0xBE, Mnemonic::LDX, Absolute(Y)),
        (0xA0, Mnemonic::LDY, Immediate),
        (0xA4, Mnemonic::LDY, ZeroPage(NoIndex)),
        (0xB4, Mnemonic::LDY, ZeroPage(X)),
        (0xAC, Mnemonic::LDY, Absolute(NoIndex)),
        (0xBC, Mnemonic::LDY, Absolute(X)),
        (0x85, Mnemonic::STA, ZeroPage(NoIndex)),
        (0x95, Mnemonic::STA, ZeroPage(X)),
        (0x8D, Mnemonic::STA, Absolute(NoIndex)),
        (0x9D, Mnemonic::STA, Absolute(X)),
        (0x99, Mnemonic::STA, Absolute(Y)),
        (0x81, Mnemonic::STA, Indirect(X)),
        (0x91, Mnemonic::STA, Indirect(Y)),
        (0x86, Mnemonic::STX, ZeroPage(NoIndex)),
        (0x96, Mnemonic::STX, ZeroPage(Y)),
        (0x8E, Mnemonic::STX, Absolute(NoIndex)),
        (0x84, Mnemonic::STY, ZeroPage(NoIndex)),
        (0x94, Mnemonic::STY, ZeroPage(X)),
        (0x8C, Mnemonic::STY, Absolute(NoIndex)),
        (0xAA, Mnemonic::TAX, Implied),
        (0xA8, Mnemonic::TAY, Implied),
        (0xBA, Mnemonic::TSX, Implied),
        (0x8A, Mnemonic::TXA, Implied),
        (0x9A, Mnemonic::TXS, Implied),
        (0x98, Mnemonic::TYA, Implied),
        (0xEA, Mnemonic::NOP, Implied),
    ]
}

#[test]
fn decode_returns_the_documented_pair() {
    for (opcode, mnemonic, addressing_mode) in documented_opcodes() {
        assert_eq!(Instruction::from_byte(opcode), Some(Instruction::new(mnemonic, addressing_mode)));
    }
}

#[test]
fn decode_rejects_every_other_byte() {
    let table = documented_opcodes();
    let mut rejected = 0;
    for byte in 0..=255u8 {
        if !table.iter().any(|entry| entry.0 == byte) {
            assert_eq!(Instruction::from_byte(byte), None);
            rejected += 1;
        }
    }
    assert_eq!(rejected, 256 - 38);
}

#[test]
fn instruction_length_counts_operand_bytes() {
    assert_eq!(AddressingMode::Implied.instruction_length(), 0);
    assert_eq!(AddressingMode::Immediate.instruction_length(), 1);
    assert_eq!(AddressingMode::ZeroPage(IndexedBy::X).instruction_length(), 1);
    assert_eq!(AddressingMode::Absolute(IndexedBy::NoIndex).instruction_length(), 2);
    assert_eq!(AddressingMode::Indirect(IndexedBy::Y).instruction_length(), 1);
}

#[test]
fn only_indexed_absolute_and_indirect_y_can_cross_a_page() {
    assert!(AddressingMode::Absolute(IndexedBy::X).can_cross_page());
    assert!(AddressingMode::Absolute(IndexedBy::Y).can_cross_page());
    assert!(AddressingMode::Indirect(IndexedBy::Y).can_cross_page());
    assert!(!AddressingMode::Absolute(IndexedBy::NoIndex).can_cross_page());
    assert!(!AddressingMode::Indirect(IndexedBy::X).can_cross_page());
    assert!(!AddressingMode::ZeroPage(IndexedBy::X).can_cross_page());
    assert!(!AddressingMode::Immediate.can_cross_page());
    assert!(!AddressingMode::Implied.can_cross_page());
}

#[test]
fn zero_page_indexing_wraps_within_page_zero() {
    let mut state = CPUState::new();
    state.x = 0x02;
    let mut cpu = CPU::new(state, Memory::new());
    cpu.write_byte(1, 0xFF);
    assert_eq!(cpu.resolve_address(AddressingMode::ZeroPage(IndexedBy::X)), 0x0001);
    assert!(!cpu.crossed_page_boundary());
    assert_eq!(*cpu.get_state(), state);
}

#[test]
fn zero_page_addresses_stay_below_256() {
    for base in [0x00u8, 0x7F, 0x80, 0xFE, 0xFF] {
        for index in [0x00u8, 0x01, 0x80, 0xFF] {
            let mut state = CPUState::new();
            state.y = index;
            state.pc = 0x2000;
            let mut cpu = CPU::new(state, Memory::new());
            cpu.write_byte(0x2001, base);
            let addr = cpu.resolve_address(AddressingMode::ZeroPage(IndexedBy::Y));
            assert!(addr < 256);
            assert_eq!(addr, base.wrapping_add(index) as u16);
        }
    }
}

#[test]
fn absolute_indexing_from_12ff_crosses_into_1300() {
    let mut state = CPUState::new();
    state.x = 0x01;
    let mut cpu = CPU::new(state, Memory::new());
    cpu.write_byte(1, 0xFF);
    cpu.write_byte(2, 0x12);
    assert_eq!(cpu.resolve_address(AddressingMode::Absolute(IndexedBy::X)), 0x1300);
    assert!(cpu.crossed_page_boundary());
    assert_eq!(*cpu.get_state(), state);
}

#[test]
fn absolute_indexing_within_a_page_does_not_cross() {
    let mut state = CPUState::new();
    state.y = 0x01;
    let mut cpu = CPU::new(state, Memory::new());
    cpu.load(1, &[0xFE, 0x12]);
    assert_eq!(cpu.resolve_address(AddressingMode::Absolute(IndexedBy::Y)), 0x12FF);
    assert!(!cpu.crossed_page_boundary());
}

#[test]
fn absolute_indexing_wraps_at_the_top_of_memory() {
    let mut state = CPUState::new();
    state.x = 0x02;
    let mut cpu = CPU::new(state, Memory::new());
    cpu.load(1, &[0xFF, 0xFF]);
    assert_eq!(cpu.resolve_address(AddressingMode::Absolute(IndexedBy::X)), 0x0001);
    assert!(cpu.crossed_page_boundary());
}

#[test]
fn a_resolution_that_cannot_cross_clears_the_page_cross_record() {
    let mut state = CPUState::new();
    state.x = 0x01;
    let mut cpu = CPU::new(state, Memory::new());
    cpu.load(1, &[0xFF, 0x12]);
    cpu.resolve_address(AddressingMode::Absolute(IndexedBy::X));
    assert!(cpu.crossed_page_boundary());
    assert_eq!(cpu.resolve_address(AddressingMode::ZeroPage(IndexedBy::NoIndex)), 0x00FF);
    assert!(!cpu.crossed_page_boundary());
}

#[test]
fn indirect_x_adds_the_index_to_the_pointer() {
    let mut state = CPUState::new();
    state.x = 0x04;
    state.pc = 0x0200;
    let mut cpu = CPU::new(state, Memory::new());
    cpu.write_byte(0x0201, 0x20);
    cpu.load(0x0024, &[0x34, 0x12]);
    assert_eq!(cpu.resolve_address(AddressingMode::Indirect(IndexedBy::X)), 0x1234);
    assert!(!cpu.crossed_page_boundary());
    assert_eq!(cpu.get_state().pc, 0x0200);
}

#[test]
fn indirect_x_pointer_wraps_in_the_zero_page() {
    let mut state = CPUState::new();
    state.x = 0x01;
    state.pc = 0x0200;
    let mut cpu = CPU::new(state, Memory::new());
    cpu.write_byte(0x0201, 0xFE);
    cpu.write_byte(0x00FF, 0x34);
    cpu.write_byte(0x0000, 0x12);
    cpu.write_byte(0x0100, 0x77);
    assert_eq!(cpu.resolve_address(AddressingMode::Indirect(IndexedBy::X)), 0x1234);
}

#[test]
fn indirect_y_adds_the_index_to_the_address() {
    let mut state = CPUState::new();
    state.y = 0x10;
    state.pc = 0x0200;
    let mut cpu = CPU::new(state, Memory::new());
    cpu.write_byte(0x0201, 0x20);
    cpu.load(0x0020, &[0xF8, 0x12]);
    assert_eq!(cpu.resolve_address(AddressingMode::Indirect(IndexedBy::Y)), 0x1308);
    assert!(cpu.crossed_page_boundary());
}

#[test]
fn immediate_operand_is_the_byte_after_the_opcode() {
    for (pc, operand) in [(0x0000u16, 0x0001u16), (0x1234, 0x1235), (0xFFFF, 0x0000)] {
        let mut state = CPUState::new();
        state.pc = pc;
        let mut cpu = CPU::new(state, Memory::new());
        assert_eq!(cpu.resolve_address(AddressingMode::Immediate), operand);
        assert_eq!(cpu.get_state().pc, pc);
        assert!(!cpu.crossed_page_boundary());
    }
}

#[test]
fn lda_immediate_round_trip() {
    let mut cpu = cpu_with(&[0xA9, 0x42]);
    let result = cpu.run().unwrap();
    assert_eq!(result.cycles, 2);
    assert_eq!(result.instruction_length, 1);
    let state = cpu.get_state();
    assert_eq!(state.a, 0x42);
    assert_eq!(state.pc, 2);
    assert!(!state.flags.contains(Flag::Zero));
    assert!(!state.flags.contains(Flag::Negative));
    assert_eq!(*cpu.get_stats(), CPUStats { total_cycles: 2, instructions: 1 });
}

#[test]
fn lda_immediate_zero_sets_zero_and_clears_negative() {
    let mut state = CPUState::new();
    state.flags.insert(Flag::Negative);
    state.flags.insert(Flag::Carry);
    let mut cpu = CPU::new(state, Memory::new());
    cpu.load(0, &[0xA9, 0x00]);
    cpu.run().unwrap();
    let flags = cpu.get_state().flags;
    assert!(flags.contains(Flag::Zero));
    assert!(!flags.contains(Flag::Negative));
    assert!(flags.contains(Flag::Carry));
    assert_eq!(flags.bits(), 0x03);
}

#[test]
fn lda_immediate_negative_clears_zero_and_sets_negative() {
    let mut state = CPUState::new();
    state.flags.insert(Flag::Zero);
    state.flags.insert(Flag::Overflow);
    let mut cpu = CPU::new(state, Memory::new());
    cpu.load(0, &[0xA9, 0x80]);
    cpu.run().unwrap();
    let flags = cpu.get_state().flags;
    assert!(!flags.contains(Flag::Zero));
    assert!(flags.contains(Flag::Negative));
    assert_eq!(flags.bits(), 0xC0);
    assert_eq!(cpu.get_state().a, 0x80);
}

#[test]
fn txs_leaves_the_flags_alone() {
    for x in [0x00u8, 0x80, 0x01, 0xFF] {
        for bits in [0x00u8, 0x02, 0x80, 0x82, 0xDF] {
            let mut state = CPUState::new();
            state.x = x;
            state.flags = CPUFlags::from_bits_truncate(bits);
            let mut cpu = CPU::new(state, Memory::new());
            let result = evaluate_transfer(&mut cpu, Mnemonic::TXS, AddressingMode::Implied);
            assert_eq!(result.state.s, x);
            assert_eq!(result.state.flags, state.flags);
            assert_eq!(result.state.pc, 1);
            assert_eq!(result.cycles, 2);
            assert_eq!(result.instruction_length, 1);
        }
    }
}

#[test]
fn txs_through_a_step_leaves_the_flags_alone() {
    let mut state = CPUState::new();
    state.x = 0x00;
    state.flags.insert(Flag::Negative);
    let mut cpu = CPU::new(state, Memory::new());
    cpu.load(0, &[0x9A]);
    cpu.run().unwrap();
    assert_eq!(cpu.get_state().s, 0x00);
    assert_eq!(cpu.get_state().flags.bits(), 0x80);
    assert_eq!(cpu.get_state().pc, 1);
}

#[test]
fn the_other_transfers_copy_and_set_flags() {
    let mut state = CPUState::new();
    state.a = 0x80;
    state.x = 0x00;
    state.y = 0x7F;
    state.s = 0xFF;
    state.pc = 0xFFFF;
    let expect = |mnemonic: Mnemonic, check: fn(&CPUState) -> u8, value: u8| {
        let mut cpu = CPU::new(state, Memory::new());
        let result = evaluate_transfer(&mut cpu, mnemonic, AddressingMode::Implied);
        assert_eq!(check(&result.state), value);
        assert_eq!(result.state.flags.contains(Flag::Zero), value == 0);
        assert_eq!(result.state.flags.contains(Flag::Negative), value >= 0x80);
        assert_eq!(result.state.pc, 0x0000);
        assert_eq!((result.cycles, result.instruction_length), (2, 1));
        assert_eq!(*cpu.get_state(), state);
    };
    expect(Mnemonic::TAX, |s| s.x, 0x80);
    expect(Mnemonic::TAY, |s| s.y, 0x80);
    expect(Mnemonic::TSX, |s| s.x, 0xFF);
    expect(Mnemonic::TXA, |s| s.a, 0x00);
    expect(Mnemonic::TYA, |s| s.a, 0x7F);
}

#[test]
fn store_then_load_reads_back_the_accumulator() {
    for addr in [0x0010u16, 0x1234, 0xFFFF] {
        let mut state = CPUState::new();
        state.a = 0x5A;
        let mut cpu = CPU::new(state, Memory::new());
        // STA addr ; LDX addr
        cpu.load(0, &[0x8D, addr as u8, (addr >> 8) as u8, 0xAE, addr as u8, (addr >> 8) as u8]);
        cpu.step(2).unwrap();
        assert_eq!(cpu.read_byte(addr), 0x5A);
        assert_eq!(cpu.get_state().x, 0x5A);
        assert_eq!(cpu.get_state().a, 0x5A);
        assert_eq!(cpu.get_state().pc, 6);
    }
}

#[test]
fn a_store_changes_no_flag_and_no_register() {
    let mut state = CPUState::new();
    state.y = 0x00;
    state.flags = CPUFlags::from_bits_truncate(0x81);
    let mut cpu = CPU::new(state, Memory::new());
    cpu.write_byte(1, 0x44);
    cpu.write_byte(0x44, 0xEE);
    let result = evaluate_store(&mut cpu, Mnemonic::STY, AddressingMode::ZeroPage(IndexedBy::NoIndex));
    let mut expected = state;
    expected.pc = 2;
    assert_eq!(result, InstructionResult { state: expected, cycles: 3, instruction_length: 1 });
    assert_eq!(cpu.read_byte(0x44), 0x00);
    assert_eq!(*cpu.get_state(), state);
}

#[test]
fn a_store_costs_the_page_crossing_case_without_crossing() {
    let cost = |mnemonic: Mnemonic, addressing_mode: AddressingMode| {
        let mut cpu = CPU::new(CPUState::new(), Memory::new());
        cpu.load(1, &[0x10, 0x20]);
        let result = evaluate_store(&mut cpu, mnemonic, addressing_mode);
        assert!(!cpu.crossed_page_boundary());
        result.cycles
    };
    assert_eq!(cost(Mnemonic::STA, AddressingMode::ZeroPage(IndexedBy::NoIndex)), 3);
    assert_eq!(cost(Mnemonic::STA, AddressingMode::ZeroPage(IndexedBy::X)), 4);
    assert_eq!(cost(Mnemonic::STX, AddressingMode::ZeroPage(IndexedBy::Y)), 4);
    assert_eq!(cost(Mnemonic::STX, AddressingMode::Absolute(IndexedBy::NoIndex)), 4);
    assert_eq!(cost(Mnemonic::STA, AddressingMode::Absolute(IndexedBy::X)), 5);
    assert_eq!(cost(Mnemonic::STA, AddressingMode::Absolute(IndexedBy::Y)), 5);
    assert_eq!(cost(Mnemonic::STA, AddressingMode::Indirect(IndexedBy::X)), 6);
    assert_eq!(cost(Mnemonic::STA, AddressingMode::Indirect(IndexedBy::Y)), 6);
}

#[test]
fn load_cycles_follow_the_table() {
    assert_eq!(cycles_transfer(Immediate, false), 2);
    assert_eq!(cycles_transfer(ZeroPage(NoIndex), false), 3);
    assert_eq!(cycles_transfer(ZeroPage(X), false), 4);
    assert_eq!(cycles_transfer(ZeroPage(Y), true), 4);
    assert_eq!(cycles_transfer(Absolute(NoIndex), true), 4);
    assert_eq!(cycles_transfer(Absolute(X), false), 4);
    assert_eq!(cycles_transfer(Absolute(X), true), 5);
    assert_eq!(cycles_transfer(Absolute(Y), false), 4);
    assert_eq!(cycles_transfer(Absolute(Y), true), 5);
    assert_eq!(cycles_transfer(Indirect(X), false), 6);
    assert_eq!(cycles_transfer(Indirect(X), true), 6);
    assert_eq!(cycles_transfer(Indirect(Y), false), 5);
    assert_eq!(cycles_transfer(Indirect(Y), true), 6);
}

#[test]
fn an_indexed_load_costs_one_more_when_it_crosses_a_page() {
    let mut state = CPUState::new();
    state.x = 0x01;
    let mut crossing = CPU::new(state, Memory::new());
    crossing.load(1, &[0xFF, 0x12]);
    crossing.write_byte(0x1300, 0x99);
    let result = evaluate_load(&mut crossing, Mnemonic::LDA, AddressingMode::Absolute(IndexedBy::X));
    assert_eq!(result.cycles, 5);
    assert_eq!(result.state.a, 0x99);
    assert_eq!(result.state.pc, 3);
    assert_eq!(result.instruction_length, 2);
    // the processor keeps its state; the new one is only in the result
    assert_eq!(*crossing.get_state(), state);
    assert!(crossing.crossed_page_boundary());

    let mut staying = CPU::new(state, Memory::new());
    staying.load(1, &[0x00, 0x12]);
    let result = evaluate_load(&mut staying, Mnemonic::LDA, AddressingMode::Absolute(IndexedBy::X));
    assert_eq!(result.cycles, 4);
}

#[test]
fn nop_moves_the_program_counter_by_one() {
    let mut state = CPUState::new();
    state.a = 7;
    state.pc = 0x0400;
    let cpu = CPU::new(state, Memory::new());
    let mut expected = state;
    expected.pc = 0x0401;
    assert_eq!(evaluate_nop(&cpu), InstructionResult { state: expected, cycles: 2, instruction_length: 1 });
    assert_eq!(*cpu.get_state(), state);
}

#[test]
fn three_nops_advance_pc_by_three_and_cycles_by_six() {
    let mut cpu = cpu_with(&[0xEA, 0xEA, 0xEA]);
    cpu.init_state();
    cpu.load(0x1000, &[0xEA, 0xEA, 0xEA]);
    assert_eq!(cpu.step(3), Ok(()));
    assert_eq!(cpu.get_state().pc, 0x1003);
    assert_eq!(*cpu.get_stats(), CPUStats { total_cycles: 6, instructions: 3 });
    let mut expected = CPUState::new();
    expected.pc = 0x1003;
    assert_eq!(*cpu.get_state(), expected);
}

#[test]
fn step_zero_does_nothing() {
    let mut cpu = cpu_with(&[0x00]);
    assert_eq!(cpu.step(0), Ok(()));
    assert_eq!(*cpu.get_state(), CPUState::new());
    assert_eq!(*cpu.get_stats(), CPUStats::new());
}

#[test]
fn an_unknown_opcode_is_reported_and_changes_nothing() {
    let mut state = CPUState::new();
    state.pc = 0x0300;
    state.a = 9;
    let mut cpu = CPU::new(state, Memory::new());
    cpu.write_byte(0x0300, 0x02);
    assert_eq!(cpu.run(), Err(DecodeError { opcode: 0x02, address: 0x0300 }));
    assert_eq!(*cpu.get_state(), state);
    assert_eq!(*cpu.get_stats(), CPUStats { total_cycles: 0, instructions: 0 });
}

#[test]
fn step_stops_before_the_first_unknown_opcode() {
    let mut cpu = cpu_with(&[0xEA, 0xA2, 0x05, 0xFF, 0xEA]);
    assert_eq!(cpu.step(5), Err(DecodeError { opcode: 0xFF, address: 3 }));
    assert_eq!(cpu.get_state().pc, 3);
    assert_eq!(cpu.get_state().x, 5);
    assert_eq!(*cpu.get_stats(), CPUStats { total_cycles: 4, instructions: 2 });
}

#[test]
fn every_instruction_advances_pc_by_its_encoded_length() {
    for (opcode, _, addressing_mode) in documented_opcodes() {
        let mut state = CPUState::new();
        state.pc = 0xFFFE;
        let mut cpu = CPU::new(state, Memory::new());
        cpu.write_byte(0xFFFE, opcode);
        cpu.run().unwrap();
        let length = 1 + addressing_mode.instruction_length() as u16;
        assert_eq!(cpu.get_state().pc, 0xFFFEu16.wrapping_add(length));
        assert_eq!(cpu.get_stats().instructions, 1);
    }
}

#[test]
fn init_state_sets_the_program_counter_only() {
    let mut state = CPUState::new();
    state.a = 1;
    state.x = 2;
    state.y = 3;
    state.s = 4;
    state.flags.insert(Flag::Decimal);
    let mut cpu = CPU::new(state, Memory::new());
    cpu.write_byte(5, 6);
    cpu.init_state();
    let mut expected = state;
    expected.pc = 0x1000;
    assert_eq!(*cpu.get_state(), expected);
    assert_eq!(cpu.read_byte(5), 6);
}

#[test]
fn load_wraps_at_the_top_of_memory() {
    let mut cpu = CPU::new(CPUState::new(), Memory::new());
    cpu.load(0xFFFF, &[0x11, 0x22, 0x33]);
    assert_eq!(cpu.read_byte(0xFFFF), 0x11);
    assert_eq!(cpu.read_byte(0x0000), 0x22);
    assert_eq!(cpu.read_byte(0x0001), 0x33);
    assert_eq!(cpu.read_byte(0x0002), 0x00);
    assert_eq!(cpu.read_byte(0xFFFE), 0x00);
}

#[test]
fn load_of_more_than_the_memory_keeps_the_later_bytes() {
    let mut bytes = vec![0xAAu8; 65536];
    bytes.push(0xBB);
    let mut cpu = CPU::new(CPUState::new(), Memory::new());
    cpu.load(0x0100, &bytes);
    assert_eq!(cpu.read_byte(0x0100), 0xBB);
    assert_eq!(cpu.read_byte(0x0101), 0xAA);
    assert_eq!(cpu.read_byte(0x00FF), 0xAA);
}

#[test]
fn load_of_nothing_changes_nothing() {
    let mut cpu = CPU::new(CPUState::new(), Memory::new());
    cpu.write_byte(3, 4);
    cpu.load(3, &[]);
    assert_eq!(cpu.read_byte(3), 4);
}

#[test]
fn memory_starts_zeroed_and_keeps_what_is_written() {
    let mut memory = Memory::new();
    assert_eq!(memory.read_byte(0x0000), 0);
    assert_eq!(memory.read_byte(0x8000), 0);
    assert_eq!(memory.read_byte(0xFFFF), 0);
    memory.write_byte(0xFFFF, 0xAB);
    memory.write_byte(0x0000, 0xCD);
    assert_eq!(memory.read_byte(0xFFFF), 0xAB);
    assert_eq!(memory.read_byte(0x0000), 0xCD);
    assert_eq!(memory.read_byte(0xFFFE), 0);
}

#[test]
fn words_are_little_endian() {
    assert_eq!(bytes_to_word(0x34, 0x12), 0x1234);
    assert_eq!(bytes_to_word(0xFF, 0x00), 0x00FF);
    assert_eq!(bytes_to_word(0x00, 0xFF), 0xFF00);
    assert!(pages_differ(0x12FF, 0x1300));
    assert!(!pages_differ(0x1200, 0x12FF));
}

#[test]
fn read_word_wraps_at_the_top_of_memory() {
    let mut cpu = CPU::new(CPUState::new(), Memory::new());
    cpu.write_byte(0xFFFF, 0x34);
    cpu.write_byte(0x0000, 0x12);
    assert_eq!(cpu.read_word(0xFFFF), 0x1234);
    cpu.write_byte(0x00FF, 0x78);
    cpu.write_byte(0x0100, 0x56);
    assert_eq!(cpu.read_word(0x00FF), 0x5678);
    assert_eq!(cpu.read_word_zp(0xFF), 0x1278);
}

#[test]
fn fetches_move_the_program_counter() {
    let mut state = CPUState::new();
    state.pc = 0xFFFE;
    let mut cpu = CPU::new(state, Memory::new());
    cpu.load(0xFFFE, &[0x01, 0x02, 0x03, 0x04]);
    assert_eq!(cpu.fetch_operand_address(), 0xFFFE);
    assert_eq!(cpu.fetch_byte(), 0x02);
    assert_eq!(cpu.get_state().pc, 0x0000);
    assert_eq!(cpu.fetch_word(), 0x0403);
    assert_eq!(cpu.get_state().pc, 0x0002);
}

#[test]
fn resolve_and_access_the_operand() {
    let mut state = CPUState::new();
    state.x = 3;
    let mut cpu = CPU::new(state, Memory::new());
    cpu.write_byte(1, 0x10);
    cpu.resolve_address_and_set_value(AddressingMode::ZeroPage(IndexedBy::X), 0x77);
    assert_eq!(cpu.read_byte(0x13), 0x77);
    assert_eq!(cpu.resolve_address_and_get_value(AddressingMode::ZeroPage(IndexedBy::X)), 0x77);
    assert_eq!(*cpu.get_state(), state);
}

#[test]
fn flags_insert_remove_contains() {
    let mut flags = CPUFlags::empty();
    assert_eq!(flags.bits(), 0);
    let all = [
        (Flag::Carry, 0x01u8),
        (Flag::Zero, 0x02),
        (Flag::InterruptDisable, 0x04),
        (Flag::Decimal, 0x08),
        (Flag::Break, 0x10),
        (Flag::Overflow, 0x40),
        (Flag::Negative, 0x80),
    ];
    for (flag, mask) in all {
        assert_eq!(flag.mask(), mask);
        assert!(!flags.contains(flag));
        flags.insert(flag);
        assert!(flags.contains(flag));
    }
    assert_eq!(flags.bits(), 0xDF);
    flags.remove(Flag::Zero);
    assert!(!flags.contains(Flag::Zero));
    assert!(flags.contains(Flag::Carry));
    assert_eq!(flags.bits(), 0xDD);
    flags.set(Flag::Zero, true);
    flags.set(Flag::Negative, false);
    assert_eq!(flags.bits(), 0x5F);
    assert_eq!(CPUFlags::from_bits_truncate(0xFF).bits(), 0xDF);
    assert_eq!(CPUFlags::from_bits_truncate(0x20), CPUFlags::empty());
}

#[test]
fn set_flags_transfer_touches_zero_and_negative_only() {
    let mut state = CPUState::new();
    state.flags = CPUFlags::from_bits_truncate(0x5D);
    set_flags_transfer(0x00, &mut state);
    assert_eq!(state.flags.bits(), 0x5F);
    set_flags_transfer(0xFF, &mut state);
    assert_eq!(state.flags.bits(), 0xDD);
    set_flags_transfer(0x01, &mut state);
    assert_eq!(state.flags.bits(), 0x5D);
}

#[test]
fn new_values_start_at_zero() {
    let state = CPUState::new();
    assert_eq!((state.a, state.x, state.y, state.s, state.pc), (0, 0, 0, 0, 0));
    assert_eq!(state.flags, CPUFlags::empty());
    assert_eq!(CPUStats::new(), CPUStats { total_cycles: 0, instructions: 0 });
    let cpu = CPU::new(state, Memory::new());
    assert!(!cpu.crossed_page_boundary());
    assert_eq!(*cpu.get_stats(), CPUStats::new());
}
