use multiemu_definition::m6502::decoder::M6502InstructionDecoder;
use multiemu_definition::m6502::instruction::{
    AddressingMode, M6502InstructionSet, M6502InstructionSetSpecifier,
};
use multiemu_definition::m6502::{ExecutionMode, FlagRegister, M6502, M6502Config, M6502Kind, M6502Quirks};
use multiemu_definition::memory::AddressSpace;

#[test]
fn decimal_support() {
    assert!(M6502Kind::M6502.supports_decimal());
    assert!(M6502Kind::M6507.supports_decimal());
    assert!(!M6502Kind::R2A0x.supports_decimal());
}

#[test]
fn flag_bits() {
    assert_eq!(FlagRegister::Negative.bits(), 0x80);
    assert_eq!(FlagRegister::Carry.bits(), 0x01);
    assert!(FlagRegister::Zero.is_set_in(0b10));
    assert!(!FlagRegister::Zero.is_set_in(0b01));
    assert!(!M6502Quirks::default().broken_ror);
}

#[test]
fn mnemonics() {
    let adc = M6502InstructionSet {
        specifier: M6502InstructionSetSpecifier::Adc,
        addressing_mode: Some(AddressingMode::Immediate(1)),
    };
    assert_eq!(adc.to_text_representation(), "ADC");
    let xaa = M6502InstructionSet { specifier: M6502InstructionSetSpecifier::Xaa, addressing_mode: None };
    assert_eq!(xaa.to_text_representation(), "XAA");
}

#[test]
fn addressing_operands_come_from_memory() {
    let mut space = AddressSpace::new(16);
    space.map_memory(0x0000, 0x00ff, true, true, 0);
    space.write_byte(0x10, 0x34).unwrap();
    space.write_byte(0x11, 0x12).unwrap();
    assert_eq!(
        AddressingMode::from_group1_addressing(0x10, &space, 0b011),
        (AddressingMode::Absolute(0x1234), 2)
    );
    assert_eq!(
        AddressingMode::from_group1_addressing(0x10, &space, 0b010),
        (AddressingMode::Immediate(0x34), 1)
    );
    assert_eq!(
        AddressingMode::from_group2_addressing(0x10, &space, 0b010),
        (AddressingMode::Accumulator, 0)
    );
    assert_eq!(
        AddressingMode::from_group2_addressing(0x10, &space, 0b000),
        (AddressingMode::XIndexedZeroPageIndirect(0x34), 1)
    );
    // Unmapped bytes read as zero.
    assert_eq!(
        AddressingMode::from_group1_addressing(0x1000, &space, 0b111),
        (AddressingMode::XIndexedAbsolute(0), 2)
    );
}

fn memory_holding(bytes: &[u8]) -> AddressSpace {
    let mut space = AddressSpace::new(16);
    space.map_memory(0, 3, true, true, 0);
    for (address, byte) in bytes.iter().enumerate() {
        space.write_byte(address, *byte).unwrap();
    }
    space
}

#[test]
/// The m6502 will decode even invalid instructions to nonsense, we should too, without crashing
fn all_instructions_decode_to_something() {
    for instruction in 0x00..=0xffu8 {
        let space = memory_holding(&[instruction, 0x00, 0x00, 0x00]);
        let instruction_decoder = M6502InstructionDecoder;
        let _ = instruction_decoder.decode(0x0, &space).unwrap();
    }
}

#[test]
fn unimplemented_opcodes_decode_to_jam() {
    let decoder = M6502InstructionDecoder;
    // BIT zero page, LDX immediate and SAX (zp,X) have no decoding yet.
    for opcode in [0x24u8, 0xa2, 0x83] {
        let space = memory_holding(&[opcode, 0x12, 0x34]);
        assert!(!decoder.decodes(0, &space));
        assert_eq!(
            decoder.decode(0, &space),
            Some((
                M6502InstructionSet { specifier: M6502InstructionSetSpecifier::Jam, addressing_mode: None },
                1
            ))
        );
    }
}

#[test]
fn m6502_instruction_decode() {
    let cases: Vec<(Vec<u8>, M6502InstructionSet, u8)> = vec![
        (vec![0x00], M6502InstructionSet { specifier: M6502InstructionSetSpecifier::Brk, addressing_mode: None }, 1),
        (vec![0x01, 0xff], M6502InstructionSet { specifier: M6502InstructionSetSpecifier::Ora, addressing_mode: Some(AddressingMode::XIndexedZeroPageIndirect(0xff)) }, 2),
        (vec![0x02], M6502InstructionSet { specifier: M6502InstructionSetSpecifier::Jam, addressing_mode: None }, 1),
        (vec![0x03, 0xff], M6502InstructionSet { specifier: M6502InstructionSetSpecifier::Slo, addressing_mode: Some(AddressingMode::XIndexedZeroPageIndirect(0xff)) }, 2),
        (vec![0x04, 0xff], M6502InstructionSet { specifier: M6502InstructionSetSpecifier::Nop, addressing_mode: Some(AddressingMode::ZeroPage(0xff)) }, 2),
        (vec![0x05, 0xff], M6502InstructionSet { specifier: M6502InstructionSetSpecifier::Ora, addressing_mode: Some(AddressingMode::ZeroPage(0xff)) }, 2),
        (vec![0x06, 0xff], M6502InstructionSet { specifier: M6502InstructionSetSpecifier::Asl, addressing_mode: Some(AddressingMode::ZeroPage(0xff)) }, 2),
        (vec![0x07, 0xff], M6502InstructionSet { specifier: M6502InstructionSetSpecifier::Slo, addressing_mode: Some(AddressingMode::ZeroPage(0xff)) }, 2),
        (vec![0x08], M6502InstructionSet { specifier: M6502InstructionSetSpecifier::Php, addressing_mode: None }, 1),
        (vec![0x09, 0xff], M6502InstructionSet { specifier: M6502InstructionSetSpecifier::Ora, addressing_mode: Some(AddressingMode::Immediate(0xff)) }, 2),
        (vec![0x0a], M6502InstructionSet { specifier: M6502InstructionSetSpecifier::Asl, addressing_mode: Some(AddressingMode::Accumulator) }, 1),
        (vec![0x0b, 0xff], M6502InstructionSet { specifier: M6502InstructionSetSpecifier::Anc, addressing_mode: Some(AddressingMode::Immediate(0xff)) }, 2),
        (vec![0x0c, 0xff, 0xff], M6502InstructionSet { specifier: M6502InstructionSetSpecifier::Nop, addressing_mode: Some(AddressingMode::Absolute(0xffff)) }, 3),
        (vec![0x0d, 0xff, 0xff], M6502InstructionSet { specifier: M6502InstructionSetSpecifier::Ora, addressing_mode: Some(AddressingMode::Absolute(0xffff)) }, 3),
        (vec![0x0e, 0xff, 0xff], M6502InstructionSet { specifier: M6502InstructionSetSpecifier::Asl, addressing_mode: Some(AddressingMode::Absolute(0xffff)) }, 3),
        (vec![0x0f, 0xff, 0xff], M6502InstructionSet { specifier: M6502InstructionSetSpecifier::Slo, addressing_mode: Some(AddressingMode::Absolute(0xffff)) }, 3),
        (vec![0x10, 0xff], M6502InstructionSet { specifier: M6502InstructionSetSpecifier::Bpl, addressing_mode: Some(AddressingMode::Relative(-1)) }, 2),
        (vec![0x11, 0xff], M6502InstructionSet { specifier: M6502InstructionSetSpecifier::Ora, addressing_mode: Some(AddressingMode::ZeroPageIndirectYIndexed(0xff)) }, 2),
        (vec![0x12], M6502InstructionSet { specifier: M6502InstructionSetSpecifier::Jam, addressing_mode: None }, 1),
        (vec![0x13, 0xff], M6502InstructionSet { specifier: M6502InstructionSetSpecifier::Slo, addressing_mode: Some(AddressingMode::ZeroPageIndirectYIndexed(0xff)) }, 2),
        (vec![0x14, 0xff], M6502InstructionSet { specifier: M6502InstructionSetSpecifier::Nop, addressing_mode: Some(AddressingMode::XIndexedZeroPage(0xff)) }, 2),
        (vec![0x15, 0xff], M6502InstructionSet { specifier: M6502InstructionSetSpecifier::Ora, addressing_mode: Some(AddressingMode::XIndexedZeroPage(0xff)) }, 2),
        (vec![0x16, 0xff], M6502InstructionSet { specifier: M6502InstructionSetSpecifier::Asl, addressing_mode: Some(AddressingMode::XIndexedZeroPage(0xff)) }, 2),
        (vec![0x17, 0xff], M6502InstructionSet { specifier: M6502InstructionSetSpecifier::Slo, addressing_mode: Some(AddressingMode::XIndexedZeroPage(0xff)) }, 2),
        (vec![0x18], M6502InstructionSet { specifier: M6502InstructionSetSpecifier::Clc, addressing_mode: None }, 1),
        (vec![0x19, 0xff, 0xff], M6502InstructionSet { specifier: M6502InstructionSetSpecifier::Ora, addressing_mode: Some(AddressingMode::YIndexedAbsolute(0xffff)) }, 3),
        (vec![0x1a], M6502InstructionSet { specifier: M6502InstructionSetSpecifier::Nop, addressing_mode: None }, 1),
        (vec![0x1b, 0xff, 0xff], M6502InstructionSet { specifier: M6502InstructionSetSpecifier::Slo, addressing_mode: Some(AddressingMode::YIndexedAbsolute(0xffff)) }, 3),
        (vec![0x1c, 0xff, 0xff], M6502InstructionSet { specifier: M6502InstructionSetSpecifier::Nop, addressing_mode: Some(AddressingMode::XIndexedAbsolute(0xffff)) }, 3),
    ];
    for (instruction_binary, decoded_instruction, decoded_instruction_size) in cases {
        let space = memory_holding(&instruction_binary);
        let decoder = M6502InstructionDecoder;
        assert!(decoder.decodes(0, &space));
        let (decoded_instruction_result, decoded_instruction_result_size) =
            decoder.decode(0x0, &space).unwrap();
        assert_eq!(
            (decoded_instruction, decoded_instruction_size),
            (decoded_instruction_result, decoded_instruction_result_size),
            "Instruction bytes was {:x?}",
            instruction_binary
        );
    }
}

#[test]
fn implemented_opcodes_decode() {
    let decoder = M6502InstructionDecoder;
    let mut decoded = 0;
    for opcode in 0x00..=0xffu8 {
        let space = memory_holding(&[opcode, 0x34, 0x12]);
        if decoder.decodes(0, &space) {
            let (instruction, length) = decoder.decode(0, &space).unwrap();
            assert!((1..=3).contains(&length));
            if instruction.addressing_mode.is_none() {
                assert_eq!(length, 1);
            }
            decoded += 1;
        }
    }
    // Group one and most undocumented opcodes, part of groups two and three.
    assert!(decoded > 128);
    // JSR absolute.
    let space = memory_holding(&[0x20, 0x34, 0x12]);
    assert_eq!(
        decoder.decode(0, &space),
        Some((
            M6502InstructionSet {
                specifier: M6502InstructionSetSpecifier::Jsr,
                addressing_mode: Some(AddressingMode::Absolute(0x1234)),
            },
            3
        ))
    );
    // The opcode at the end of the address range takes its operand from the start.
    let mut space = AddressSpace::new(16);
    space.map_memory(0, 0xffff, true, true, 0);
    space.write_byte(0xffff, 0xa9).unwrap();
    space.write_byte(0x0000, 0x42).unwrap();
    assert_eq!(
        decoder.decode(0x1ffff, &space),
        Some((
            M6502InstructionSet {
                specifier: M6502InstructionSetSpecifier::Lda,
                addressing_mode: Some(AddressingMode::Immediate(0x42)),
            },
            2
        ))
    );
}

fn running_processor(kind: M6502Kind) -> M6502 {
    M6502::from_config(M6502Config { frequency_numerator: 1_000_000, frequency_denominator: 1, kind })
}

fn ram_with_program(origin: u16, program: &[u8]) -> AddressSpace {
    let mut space = AddressSpace::new(16);
    space.map_memory(0, 0xffff, true, true, 0);
    space.write_byte(0xfffc, (origin & 0xff) as u8).unwrap();
    space.write_byte(0xfffd, (origin >> 8) as u8).unwrap();
    for (offset, byte) in program.iter().enumerate() {
        space.write_byte(origin as usize + offset, *byte).unwrap();
    }
    space
}

#[test]
fn reset_loads_the_vector_and_runs_an_immediate_load() {
    let mut cpu = running_processor(M6502Kind::M6502);
    let mut space = ram_with_program(0x0200, &[0xa9, 0x80]);
    assert!(cpu.cycle(&mut space));
    assert_eq!(cpu.state.program, 0x0200);
    assert!(matches!(cpu.state.execution_mode, Some(ExecutionMode::Fetch)));
    assert!(cpu.cycle(&mut space));
    assert_eq!(cpu.state.program, 0x0202);
    assert_eq!(cpu.state.address_bus, 0x0201);
    assert!(matches!(cpu.state.execution_mode, Some(ExecutionMode::Execute { .. })));
    assert!(cpu.cycle(&mut space));
    assert_eq!(cpu.state.a, 0x80);
    assert!(FlagRegister::Negative.is_set_in(cpu.state.flags));
    assert!(!FlagRegister::Zero.is_set_in(cpu.state.flags));
    assert!(matches!(cpu.state.execution_mode, Some(ExecutionMode::Fetch)));
}

#[test]
fn absolute_load_walks_its_steps() {
    let mut cpu = running_processor(M6502Kind::M6502);
    let mut space = ram_with_program(0x0200, &[0xad, 0x34, 0x12]);
    space.write_byte(0x1234, 0x00).unwrap();
    cpu.cycle(&mut space);
    cpu.cycle(&mut space);
    assert_eq!(cpu.state.program, 0x0203);
    assert!(matches!(cpu.state.execution_mode, Some(ExecutionMode::Load { .. })));
    // Two operand bytes each take a cycle, moving the latch to the bus takes none.
    assert!(cpu.cycle(&mut space));
    assert!(cpu.cycle(&mut space));
    assert!(!cpu.cycle(&mut space));
    assert_eq!(cpu.state.address_bus, 0x1234);
    assert!(matches!(cpu.state.execution_mode, Some(ExecutionMode::Execute { .. })));
    cpu.state.flags = 0;
    assert!(cpu.cycle(&mut space));
    assert_eq!(cpu.state.a, 0);
    assert!(FlagRegister::Zero.is_set_in(cpu.state.flags));
}

#[test]
fn adc_carries_and_overflows_together() {
    let mut cpu = running_processor(M6502Kind::R2A0x);
    let mut space = ram_with_program(0x0200, &[]);
    cpu.state.a = 0xff;
    cpu.state.flags = 0;
    let adc = M6502InstructionSet {
        specifier: M6502InstructionSetSpecifier::Adc,
        addressing_mode: Some(AddressingMode::Immediate(0x01)),
    };
    cpu.interpret_instruction(&mut space, adc);
    assert_eq!(cpu.state.a, 0x00);
    assert!(FlagRegister::Carry.is_set_in(cpu.state.flags));
    assert!(FlagRegister::Overflow.is_set_in(cpu.state.flags));
    assert!(FlagRegister::Zero.is_set_in(cpu.state.flags));
    assert!(!FlagRegister::Negative.is_set_in(cpu.state.flags));
    // With the carry in: 0x10 + 0x20 + 1.
    cpu.state.a = 0x10;
    let adc = M6502InstructionSet {
        specifier: M6502InstructionSetSpecifier::Adc,
        addressing_mode: Some(AddressingMode::Immediate(0x20)),
    };
    cpu.interpret_instruction(&mut space, adc);
    assert_eq!(cpu.state.a, 0x31);
    assert!(!FlagRegister::Carry.is_set_in(cpu.state.flags));
}

#[test]
fn jsr_then_rts_comes_back() {
    let mut cpu = running_processor(M6502Kind::M6502);
    let mut space = ram_with_program(0x0200, &[]);
    cpu.state.program = 0x0203;
    cpu.state.stack = 0xff;
    let jsr = M6502InstructionSet {
        specifier: M6502InstructionSetSpecifier::Jsr,
        addressing_mode: Some(AddressingMode::Absolute(0x0300)),
    };
    cpu.interpret_instruction(&mut space, jsr);
    assert_eq!(cpu.state.program, 0x0300);
    assert_eq!(cpu.state.stack, 0xfd);
    assert_eq!(space.read_byte(0x01fd), Some(0x03));
    assert_eq!(space.read_byte(0x01fe), Some(0x02));
    let rts = M6502InstructionSet { specifier: M6502InstructionSetSpecifier::Rts, addressing_mode: None };
    cpu.interpret_instruction(&mut space, rts);
    assert_eq!(cpu.state.program, 0x0203);
    assert_eq!(cpu.state.stack, 0xff);
}

#[test]
fn stack_pushes_and_pulls() {
    let mut cpu = running_processor(M6502Kind::M6502);
    let mut space = ram_with_program(0x0200, &[]);
    cpu.state.a = 0x42;
    cpu.state.flags = 0x01;
    let op = |specifier| M6502InstructionSet { specifier, addressing_mode: None };
    cpu.interpret_instruction(&mut space, op(M6502InstructionSetSpecifier::Pha));
    assert_eq!(cpu.state.stack, 0xfe);
    assert_eq!(space.read_byte(0x01fe), Some(0x42));
    cpu.interpret_instruction(&mut space, op(M6502InstructionSetSpecifier::Php));
    assert_eq!(space.read_byte(0x01fd), Some(0x31));
    // Pulls read at the stack pointer itself.
    cpu.state.stack = 0xfe;
    cpu.state.a = 0;
    cpu.interpret_instruction(&mut space, op(M6502InstructionSetSpecifier::Pla));
    assert_eq!(cpu.state.a, 0x42);
    assert_eq!(cpu.state.stack, 0xff);
}

#[test]
fn brk_pushes_and_takes_the_interrupt_vector() {
    let mut cpu = running_processor(M6502Kind::M6502);
    let mut space = ram_with_program(0x0200, &[]);
    space.write_byte(0xfffe, 0x00).unwrap();
    space.write_byte(0xffff, 0x90).unwrap();
    cpu.state.program = 0x1234;
    cpu.state.flags = 0x00;
    let brk = M6502InstructionSet { specifier: M6502InstructionSetSpecifier::Brk, addressing_mode: None };
    cpu.interpret_instruction(&mut space, brk);
    assert_eq!(cpu.state.program, 0x9000);
    assert_eq!(cpu.state.stack, 0xfc);
    assert_eq!(space.read_byte(0x01fd), Some(0x34));
    assert_eq!(space.read_byte(0x01fe), Some(0x12));
    assert_eq!(space.read_byte(0x01fc), Some(0x30));
}

#[test]
fn taken_branch_moves_back() {
    let mut cpu = running_processor(M6502Kind::M6502);
    let mut space = ram_with_program(0x0200, &[]);
    cpu.state.program = 0x0210;
    cpu.state.flags = 0;
    let bpl = M6502InstructionSet {
        specifier: M6502InstructionSetSpecifier::Bpl,
        addressing_mode: Some(AddressingMode::Relative(-16)),
    };
    cpu.interpret_instruction(&mut space, bpl);
    assert_eq!(cpu.state.program, 0x0200);
    cpu.state.flags = 0x80;
    cpu.interpret_instruction(&mut space, bpl);
    assert_eq!(cpu.state.program, 0x0200);
}

#[test]
fn jam_jams_for_good() {
    let mut cpu = running_processor(M6502Kind::M6502);
    let mut space = ram_with_program(0x0200, &[0x02]);
    cpu.cycle(&mut space);
    cpu.cycle(&mut space);
    cpu.cycle(&mut space);
    assert!(matches!(cpu.state.execution_mode, Some(ExecutionMode::Jammed)));
    let program = cpu.state.program;
    for _ in 0..10 {
        assert!(cpu.cycle(&mut space));
        assert!(matches!(cpu.state.execution_mode, Some(ExecutionMode::Jammed)));
        assert_eq!(cpu.state.program, program);
    }
}

#[test]
fn rdy_low_only_takes_the_cycle() {
    let mut cpu = running_processor(M6502Kind::M6502);
    let mut space = ram_with_program(0x0200, &[0xa9, 0x01]);
    cpu.set_rdy(false);
    assert!(cpu.cycle(&mut space));
    assert!(matches!(cpu.state.execution_mode, Some(ExecutionMode::Reset)));
    assert_eq!(cpu.state.program, 0);
    cpu.set_rdy(true);
    cpu.cycle(&mut space);
    assert_eq!(cpu.state.program, 0x0200);
}

#[test]
fn unimplemented_execution_is_reported() {
    let mut cpu = running_processor(M6502Kind::M6502);
    cpu.state.execution_mode = Some(ExecutionMode::Execute {
        instruction: M6502InstructionSet {
            specifier: M6502InstructionSetSpecifier::Cmp,
            addressing_mode: Some(AddressingMode::Immediate(1)),
        },
    });
    assert!(!cpu.next_cycle_defined());
}

#[test]
fn decimal_adc_changes_nothing_where_decimal_mode_exists() {
    // With the decimal flag set the chip with decimal mode runs on, registers untouched.
    let mut cpu = running_processor(M6502Kind::M6502);
    let mut space = ram_with_program(0x0200, &[]);
    cpu.state.flags = 0x08;
    cpu.state.a = 0x09;
    let adc = M6502InstructionSet {
        specifier: M6502InstructionSetSpecifier::Adc,
        addressing_mode: Some(AddressingMode::Immediate(0x01)),
    };
    cpu.state.execution_mode = Some(ExecutionMode::Execute { instruction: adc });
    assert!(cpu.next_cycle_defined());
    assert!(cpu.cycle(&mut space));
    assert_eq!(cpu.state.a, 0x09);
    assert_eq!(cpu.state.flags, 0x08);
    // The NES chip has no decimal mode and adds in binary.
    let mut nes = running_processor(M6502Kind::R2A0x);
    nes.state.flags = 0x08;
    nes.state.a = 0x09;
    nes.interpret_instruction(&mut space, adc);
    assert_eq!(nes.state.a, 0x0a);
}
