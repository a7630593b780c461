use bitvec::{order::Lsb0, view::BitView};
use multiemu_definition::memory::AddressSpace;
use multiemu_definition::mos6502::{
    AddressingMode, ExecutionStep, FlagRegister, Mos6502, Mos6502AddressingMode, Mos6502Config,
    Mos6502InstructionDecoder, Mos6502InstructionSet, Mos6502Kind, Mos6502Opcode, Opcode,
};

fn instruction_test_boilerplate() -> (Mos6502, AddressSpace) {
    let cpu = Mos6502::new(Mos6502Config {
        kind: Mos6502Kind::Mos6502,
        broken_ror: false,
    });
    let mut address_space = AddressSpace::new(16);
    address_space.map_memory(0x0000, 0xffff, true, true, 0);
    (cpu, address_space)
}

fn run_for_cycles(cpu: &mut Mos6502, address_space: &mut AddressSpace, cycles: usize) {
    for _ in 0..cycles {
        assert!(cpu.next_cycle_defined());
        cpu.cycle(address_space);
    }
}

fn write_bytes(address_space: &mut AddressSpace, address: usize, bytes: &[u8]) {
    for (offset, byte) in bytes.iter().enumerate() {
        address_space.write_byte(address + offset, *byte).unwrap();
    }
}

#[test]
pub fn adc_immediate() {
    for value in 0x00..=0xffu8 {
        let (mut cpu, mut address_space) = instruction_test_boilerplate();

        // Enable carry
        cpu.state.flags.carry = true;
        cpu.state.execution_queue.clear();
        cpu.state
            .execution_queue
            .push_back(ExecutionStep::FetchAndDecode);

        write_bytes(&mut address_space, 0x0000, &[0x69, value]);

        // Should be done in 2 cycles
        run_for_cycles(&mut cpu, &mut address_space, 2);

        let modified_value = value.wrapping_add(1);

        assert_eq!(cpu.state.a, modified_value);
        assert_eq!(
            cpu.state.flags,
            FlagRegister {
                negative: modified_value.view_bits::<Lsb0>()[7],
                overflow: bytemuck::cast::<_, i8>(value).checked_add(1).is_none(),
                undocumented: false,
                break_: false,
                decimal: false,
                interrupt_disable: false,
                zero: value.wrapping_add(1) == 0,
                carry: value.checked_add(1).is_none()
            }
        );
        assert_eq!(cpu.state.program, 0x2);
    }
}

#[test]
pub fn adc_absolute() {
    for value in 0x00..=0xffu8 {
        let (mut cpu, mut address_space) = instruction_test_boilerplate();

        write_bytes(&mut address_space, 0x3, &[value]);

        // Enable carry
        cpu.state.flags.carry = true;
        cpu.state.execution_queue.clear();
        cpu.state
            .execution_queue
            .push_back(ExecutionStep::FetchAndDecode);

        // ADC 0x0003
        write_bytes(&mut address_space, 0x0000, &[0x6d]);
        write_bytes(&mut address_space, 0x0001, &0x3u16.to_le_bytes());

        run_for_cycles(&mut cpu, &mut address_space, 4);

        let modified_value = value.wrapping_add(1);

        assert_eq!(cpu.state.a, modified_value);
        assert_eq!(
            cpu.state.flags,
            FlagRegister {
                negative: modified_value.view_bits::<Lsb0>()[7],
                overflow: bytemuck::cast::<_, i8>(value).checked_add(1).is_none(),
                undocumented: false,
                break_: false,
                decimal: false,
                interrupt_disable: false,
                zero: value.wrapping_add(1) == 0,
                carry: value.checked_add(1).is_none()
            }
        );
        assert_eq!(cpu.state.program, 0x3);
    }
}

#[test]
pub fn decoding_test() {
    let table = [
        (
            0xb6,
            Mos6502InstructionSet {
                opcode: Opcode::Mos6502(Mos6502Opcode::Ldx),
                addressing_mode: Some(AddressingMode::Mos6502(
                    Mos6502AddressingMode::YIndexedZeroPage,
                )),
            },
        ),
        (
            0xbe,
            Mos6502InstructionSet {
                opcode: Opcode::Mos6502(Mos6502Opcode::Ldx),
                addressing_mode: Some(AddressingMode::Mos6502(
                    Mos6502AddressingMode::YIndexedAbsolute,
                )),
            },
        ),
        (
            0x01,
            Mos6502InstructionSet {
                opcode: Opcode::Mos6502(Mos6502Opcode::Ora),
                addressing_mode: Some(AddressingMode::Mos6502(
                    Mos6502AddressingMode::XIndexedZeroPageIndirect,
                )),
            },
        ),
    ];

    let mut address_space = AddressSpace::new(16);
    address_space.map_memory(0x00, 0x00, true, true, 0);

    let decoder = Mos6502InstructionDecoder::new(Mos6502Kind::Mos6502);

    for (byte, expected_decoding) in table {
        address_space.write_byte(0x0, byte).unwrap();

        let (decoding, _) = decoder.decode(0x0000, &address_space).unwrap();

        assert_eq!(
            decoding, expected_decoding,
            "Byte 0x{:04x} failed to decode",
            byte
        );
    }
}

#[test]
fn runnable_states_are_told_apart() {
    let (mut cpu, _) = instruction_test_boilerplate();
    assert!(cpu.is_runnable());
    cpu.state.execution_queue.clear();
    assert!(!cpu.is_runnable());
    cpu.state.execution_queue.push_back(ExecutionStep::LatchToAddressBus);
    cpu.state.execution_queue.push_back(ExecutionStep::FetchAndDecode);
    assert!(!cpu.is_runnable());
    cpu.state.execution_queue.clear();
    cpu.state.execution_queue.push_back(ExecutionStep::LoadData);
    cpu.state.execution_queue.push_back(ExecutionStep::LatchToAddressBus);
    cpu.state.execution_queue.push_back(ExecutionStep::FetchAndDecode);
    assert!(cpu.is_runnable());
    cpu.state.execution_queue.push_back(ExecutionStep::Interpret);
    assert!(!cpu.is_runnable());
}
