use vm::bus::{Bus, BusError};
use vm::cpu::{Cpu, CpuError, CpuFlags, NOP_FLAG};
use vm::device::{Device, DeviceError, DeviceHeader, DeviceType};
use vm::instruction::{Instruction, Opcode, Operand};
use vm::ram::{Ram, RamWorkAction, RAM_SIZE};

fn cpu_with_ram(id: u16) -> Cpu<Ram> {
    let mut cpu = Cpu::new();
    cpu.connect_device(Ram::new(id)).unwrap();
    cpu.set_ram_dev(id).unwrap();
    cpu
}

fn nop() -> Instruction {
    Instruction::new(Opcode::Nop, Operand::Invalid, Operand::Invalid)
}

fn set_imm(reg: Operand, value: u16) -> Instruction {
    Instruction::with_imm(Opcode::Sgr, Operand::InstImm, reg, value)
}

#[test]
fn decoding_is_total() {
    let opcodes = [
        Opcode::Inv,
        Opcode::Nop,
        Opcode::Hlt,
        Opcode::Sgr,
        Opcode::Srd,
        Opcode::Lod,
        Opcode::Str,
        Opcode::Add,
    ];
    let operands = [
        Operand::Invalid,
        Operand::GpRegister0,
        Operand::GpRegister1,
        Operand::GpRegister2,
        Operand::GpRegister3,
        Operand::InstImm,
    ];
    for b in 0..=255u8 {
        let op = Opcode::from(b);
        let expected = if b <= 7 { opcodes[b as usize] } else { Opcode::Inv };
        assert_eq!(op, expected);
        assert_eq!(op.code(), if b <= 7 { b } else { 0 });
        let sel = Operand::from(b);
        let expected = if b <= 5 { operands[b as usize] } else { Operand::Invalid };
        assert_eq!(sel, expected);
    }
}

#[test]
fn operand_byte_packs_source_low_and_destination_high() {
    let inst = Instruction::from_raw(3, 0x25, 9);
    assert_eq!(inst.opcode(), Opcode::Sgr);
    assert_eq!(inst.src(), Operand::InstImm);
    assert_eq!(inst.dst(), Operand::GpRegister1);
    assert_eq!(inst.imm(), 9);
    let raw = Instruction::from_raw(200, 0xf9, 1);
    assert_eq!(raw.opcode(), Opcode::Inv);
    assert_eq!(raw.src(), Operand::Invalid);
    assert_eq!(raw.dst(), Operand::Invalid);
}

#[test]
fn new_instruction_round_trips() {
    let inst = Instruction::new(Opcode::Str, Operand::GpRegister3, Operand::InstImm);
    assert_eq!(inst.opcode(), Opcode::Str);
    assert_eq!(inst.src(), Operand::GpRegister3);
    assert_eq!(inst.dst(), Operand::InstImm);
    assert_eq!(inst.imm(), 0);
    let inst =
        Instruction::with_imm(Opcode::Add, Operand::InstImm, Operand::GpRegister0, 0xbeef);
    assert_eq!(inst.opcode(), Opcode::Add);
    assert_eq!(inst.imm(), 0xbeef);
}

#[test]
fn ram_write_then_read() {
    let mut ram = Ram::new(1);
    assert_eq!(ram.bytes().len(), RAM_SIZE);
    assert_eq!(ram.act_secondary(0x1234, 10), Err(DeviceError::NoOutput));
    assert_eq!(ram.act_primary(10), Ok(0x1234));
    assert_eq!(ram.bytes()[10], 0x12);
    assert_eq!(ram.bytes()[11], 0x34);
}

#[test]
fn ram_odd_address_rounds_down() {
    let mut ram = Ram::new(1);
    let _ = ram.act_secondary(0xabcd, 21);
    assert_eq!(ram.bytes()[20], 0xab);
    assert_eq!(ram.bytes()[21], 0xcd);
    assert_eq!(ram.act_primary(21), ram.act_primary(20));
    assert_eq!(ram.act_primary(21), Ok(0xabcd));
    let _ = ram.act_secondary(7, 65535);
    assert_eq!(ram.act_primary(65534), Ok(7));
}

#[test]
fn ram_header() {
    let ram = Ram::new(42);
    assert_eq!(ram.header().id(), 42);
    assert_eq!(ram.header().dev_type(), DeviceType::Ram);
    assert_eq!(ram.header().info(), &[65536u32][..]);
}

#[test]
fn ram_work_interface() {
    let mut ram = Ram::new(1);
    assert_eq!(RamWorkAction::from(2u32), RamWorkAction::Write);
    assert_eq!(ram.work(&[2, 4, 0x0102]), Err(DeviceError::NoOutput));
    assert_eq!(ram.work(&[1, 5]), Ok(vec![0x0102]));
    assert_eq!(ram.work(&[]), Err(DeviceError::WrongArgumentCount));
    assert_eq!(ram.work(&[3, 4]), Err(DeviceError::InvalidInput));
    assert_eq!(ram.work(&[1]), Err(DeviceError::WrongArgumentCount));
    assert_eq!(ram.work(&[2, 4]), Err(DeviceError::WrongArgumentCount));
    assert_eq!(ram.work(&[1, 70000]), Err(DeviceError::InvalidInput));
    assert_eq!(ram.work(&[2, 4, 70000]), Err(DeviceError::InvalidInput));
    assert_eq!(ram.work(&[1, 4]), Ok(vec![0x0102]));
}

#[test]
fn device_header_fields() {
    let hdr = DeviceHeader::new(DeviceType::Disk, 3, &[1, 2, 3]);
    assert_eq!(hdr.dev_type(), DeviceType::Disk);
    assert_eq!(hdr.id(), 3);
    assert_eq!(hdr.info(), &[1u32, 2, 3][..]);
}

#[test]
fn bus_rejects_duplicate_id() {
    let mut bus = Bus::new();
    assert_eq!(bus.connect_dev(Ram::new(5)), Ok(()));
    assert_eq!(bus.connect_dev(Ram::new(5)), Err(BusError::DeviceIdExists));
    assert_eq!(bus.len(), 1);
    assert_eq!(bus.find(5), Some(0));
    assert_eq!(bus.connect_dev(Ram::new(6)), Ok(()));
    assert_eq!(bus.find(6), Some(1));
    assert_eq!(bus.find(9), None);
}

#[test]
fn cpu_rejects_duplicate_id() {
    let mut cpu = Cpu::new();
    assert_eq!(cpu.connect_device(Ram::new(5)), Ok(()));
    assert_eq!(cpu.connect_device(Ram::new(5)), Err(CpuError::DeviceIdExists));
    assert_eq!(cpu.device_count(), 1);
}

#[test]
fn select_unregistered_keeps_active() {
    let mut cpu = Cpu::new();
    assert_eq!(cpu.set_ram_dev(3), Err(CpuError::DeviceDoesNotExist));
    assert_eq!(cpu.active_id(), None);
    cpu.connect_device(Ram::new(3)).unwrap();
    assert_eq!(cpu.set_ram_dev(3), Ok(()));
    assert_eq!(cpu.set_ram_dev(4), Err(CpuError::DeviceDoesNotExist));
    assert_eq!(cpu.active_id(), Some(3));
}

#[test]
fn nop_skips_next_instruction() {
    let mut cpu = cpu_with_ram(1);
    assert_eq!(cpu.exec_instruction(nop()), Ok(()));
    assert_eq!(cpu.flags() & CpuFlags::Nop.mask(), NOP_FLAG);
    assert_eq!(cpu.exec_instruction(set_imm(Operand::GpRegister0, 9)), Ok(()));
    assert_eq!(cpu.gp_regs(), [0, 0, 0, 0]);
    assert_eq!(cpu.flags(), 0);
    assert_eq!(cpu.exec_instruction(set_imm(Operand::GpRegister0, 9)), Ok(()));
    assert_eq!(cpu.gp_regs(), [9, 0, 0, 0]);
}

#[test]
fn skipped_instruction_may_be_invalid() {
    let mut cpu: Cpu<Ram> = Cpu::new();
    cpu.exec_instruction(nop()).unwrap();
    assert_eq!(cpu.exec_instruction(Instruction::from_raw(0, 0, 0)), Ok(()));
}

#[test]
fn add_wraps_around() {
    let mut cpu: Cpu<Ram> = Cpu::new();
    cpu.exec_instruction(set_imm(Operand::GpRegister0, 65535)).unwrap();
    let add = Instruction::with_imm(Opcode::Add, Operand::InstImm, Operand::GpRegister0, 1);
    assert_eq!(cpu.exec_instruction(add), Ok(()));
    assert_eq!(cpu.gp_regs()[0], 0);
}

#[test]
fn add_registers() {
    let mut cpu: Cpu<Ram> = Cpu::new();
    cpu.exec_instruction(set_imm(Operand::GpRegister2, 40000)).unwrap();
    cpu.exec_instruction(set_imm(Operand::GpRegister3, 30000)).unwrap();
    let add = Instruction::new(Opcode::Add, Operand::GpRegister2, Operand::GpRegister3);
    assert_eq!(cpu.exec_instruction(add), Ok(()));
    assert_eq!(cpu.gp_regs(), [0, 0, 40000, 4464]);
}

#[test]
fn store_then_load_end_to_end() {
    let mut cpu = Cpu::new();
    assert_eq!(cpu.connect_device(Ram::new(7)), Ok(()));
    assert_eq!(cpu.set_ram_dev(7), Ok(()));
    assert_eq!(cpu.exec_instruction(set_imm(Operand::GpRegister0, 100)), Ok(()));
    assert_eq!(cpu.exec_instruction(set_imm(Operand::GpRegister1, 10)), Ok(()));
    let store = Instruction::new(Opcode::Str, Operand::GpRegister0, Operand::GpRegister1);
    assert_eq!(cpu.exec_instruction(store), Ok(()));
    let ram = cpu.device(7).unwrap();
    assert_eq!(ram.bytes()[10], 0);
    assert_eq!(ram.bytes()[11], 100);
    let load = Instruction::with_imm(Opcode::Lod, Operand::InstImm, Operand::GpRegister2, 10);
    assert_eq!(cpu.exec_instruction(load), Ok(()));
    assert_eq!(cpu.gp_regs()[2], 100);
}

#[test]
fn select_through_instruction() {
    let mut cpu = Cpu::new();
    cpu.connect_device(Ram::new(1)).unwrap();
    cpu.connect_device(Ram::new(2)).unwrap();
    let srd = Instruction::with_imm(Opcode::Srd, Operand::InstImm, Operand::Invalid, 2);
    assert_eq!(cpu.exec_instruction(srd), Ok(()));
    assert_eq!(cpu.active_id(), Some(2));
    let store = Instruction::with_imm(Opcode::Str, Operand::InstImm, Operand::InstImm, 0x0404);
    assert_eq!(cpu.exec_instruction(store), Ok(()));
    assert_eq!(cpu.device(2).unwrap().act_primary(0x0404), Ok(0x0404));
    assert_eq!(cpu.device(1).unwrap().act_primary(0x0404), Ok(0));
    let srd = Instruction::with_imm(Opcode::Srd, Operand::InstImm, Operand::Invalid, 9);
    assert_eq!(cpu.exec_instruction(srd), Err(CpuError::DeviceDoesNotExist));
    assert_eq!(cpu.active_id(), Some(2));
}

#[test]
fn invalid_opcode_is_program_error() {
    let mut cpu = cpu_with_ram(1);
    cpu.exec_instruction(set_imm(Operand::GpRegister3, 5)).unwrap();
    let before = cpu.gp_regs();
    let inv = Instruction::with_imm(Opcode::Inv, Operand::InstImm, Operand::GpRegister3, 77);
    assert_eq!(cpu.exec_instruction(inv), Err(CpuError::ProgramError));
    assert_eq!(cpu.gp_regs(), before);
}

#[test]
fn missing_destination_is_program_error() {
    let mut cpu = cpu_with_ram(1);
    let set = Instruction::with_imm(Opcode::Sgr, Operand::InstImm, Operand::Invalid, 3);
    assert_eq!(cpu.exec_instruction(set), Err(CpuError::ProgramError));
    let add = Instruction::with_imm(Opcode::Add, Operand::InstImm, Operand::InstImm, 3);
    assert_eq!(cpu.exec_instruction(add), Err(CpuError::ProgramError));
    let load = Instruction::with_imm(Opcode::Lod, Operand::InstImm, Operand::Invalid, 3);
    assert_eq!(cpu.exec_instruction(load), Err(CpuError::ProgramError));
    let store = Instruction::with_imm(Opcode::Str, Operand::InstImm, Operand::Invalid, 3);
    assert_eq!(cpu.exec_instruction(store), Err(CpuError::ProgramError));
    assert_eq!(cpu.gp_regs(), [0, 0, 0, 0]);
}

#[test]
fn load_without_active_device_fails() {
    let mut cpu: Cpu<Ram> = Cpu::new();
    let load = Instruction::with_imm(Opcode::Lod, Operand::InstImm, Operand::GpRegister0, 0);
    assert_eq!(cpu.exec_instruction(load), Err(CpuError::DeviceDoesNotExist));
    let store = Instruction::with_imm(Opcode::Str, Operand::InstImm, Operand::InstImm, 0);
    assert_eq!(cpu.exec_instruction(store), Err(CpuError::DeviceDoesNotExist));
}

#[test]
fn halt_changes_nothing() {
    let mut cpu = cpu_with_ram(1);
    assert_eq!(cpu.exec_instruction(Instruction::from_raw(2, 0, 0)), Ok(()));
    assert_eq!(cpu.gp_regs(), [0, 0, 0, 0]);
    assert_eq!(cpu.flags(), 0);
    assert_eq!(cpu.inst_ptr(), 0);
    cpu.set_inst_ptr(12);
    assert_eq!(cpu.inst_ptr(), 12);
}
