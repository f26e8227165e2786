use vstd::prelude::*;

use crate::bus::{has_id, unique_ids, Bus, BusError};
use crate::device::{Device, DeviceError};
use crate::instruction::{register_index, Instruction, InstructionView, Opcode, Operand};

verus! {

/// Bits of the flags register.
#[derive(Clone, Copy, Debug, PartialEq, Eq, Structural)]
pub enum CpuFlags {
    /// Set by a no-op: the next instruction is skipped, which clears it.
    Nop,
}

/// The mask of the no-op flag in the flags register.
pub const NOP_FLAG: u16 = 1;

impl CpuFlags {
    pub fn mask(&self) -> (r: u16)
        ensures
            r == NOP_FLAG,
    {
        match self {
            CpuFlags::Nop => NOP_FLAG,
        }
    }
}

#[derive(Clone, Copy, Debug, PartialEq, Eq, Structural)]
pub enum CpuError {
    /// 65536 devices are connected already.
    TooManyDevices,
    /// A connected device has the id already.
    DeviceIdExists,
    /// No connected device has the id asked for.
    DeviceDoesNotExist,
    /// The instruction is malformed.
    ProgramError,
    /// The active device refused a request.
    Device(DeviceError),
}

/// Most devices a cpu holds: one for each 16-bit id.
pub const MAX_DEVICES: usize = 65536;

/// The state of a cpu: four general purpose registers, flags, instruction
/// pointer, the id of the active ram device and the connected devices.
pub struct CpuView<V> {
    pub regs: Seq<u16>,
    pub flags: u16,
    pub inst_ptr: u16,
    pub active: Option<u16>,
    pub devs: Seq<V>,
}

/// The no-op flag (bit 0 of the flags) is set: the next instruction is
/// skipped.
pub open spec fn skipping<V>(s: CpuView<V>) -> bool {
    s.flags % 2 == 1
}

/// `flags` with the no-op flag set.
pub open spec fn with_nop(flags: u16) -> u16 {
    (flags - flags % 2 + 1) as u16
}

/// `flags` with the no-op flag clear.
pub open spec fn without_nop(flags: u16) -> u16 {
    (flags - flags % 2) as u16
}

/// Value of the source operand: 0 for none, a register's value, or the
/// immediate.
pub open spec fn src_value(regs: Seq<u16>, inst: InstructionView) -> u16 {
    match inst.src {
        Operand::InstImm => inst.imm,
        Operand::Invalid => 0,
        _ => regs[register_index(inst.src).unwrap()],
    }
}

/// Value of the destination operand when it is read (the address of a
/// store): a register's value or the immediate; none for no operand.
pub open spec fn dst_value(regs: Seq<u16>, inst: InstructionView) -> Option<u16> {
    match inst.dst {
        Operand::InstImm => Some(inst.imm),
        Operand::Invalid => None,
        _ => Some(regs[register_index(inst.dst).unwrap()]),
    }
}

/// `a + b` modulo 2^16.
pub open spec fn wrap_add(a: u16, b: u16) -> u16 {
    ((a as int + b as int) % 65536) as u16
}

/// Position of the device with `id` among `devs`, if one is there.
pub open spec fn index_of<D: Device>(devs: Seq<D::V>, id: u16) -> Option<int> {
    if has_id::<D>(devs, id) {
        Some(choose|i: int| 0 <= i < devs.len() && D::spec_id(#[trigger] devs[i]) == id)
    } else {
        None
    }
}

/// Position of the active ram device, resolved by its id.
pub open spec fn active_index<D: Device>(s: CpuView<D::V>) -> Option<int> {
    match s.active {
        Some(id) => index_of::<D>(s.devs, id),
        None => None,
    }
}

/// The state and answer of selecting device `id` as the active ram device.
pub open spec fn select<D: Device>(
    s: CpuView<D::V>,
    id: u16,
) -> (CpuView<D::V>, Result<(), CpuError>) {
    if has_id::<D>(s.devs, id) {
        (CpuView { active: Some(id), ..s }, Ok(()))
    } else {
        (s, Err(CpuError::DeviceDoesNotExist))
    }
}

/// The state and answer of connecting `dev`.
pub open spec fn connect<D: Device>(
    s: CpuView<D::V>,
    dev: D::V,
) -> (CpuView<D::V>, Result<(), CpuError>) {
    if s.devs.len() >= MAX_DEVICES {
        (s, Err(CpuError::TooManyDevices))
    } else if has_id::<D>(s.devs, D::spec_id(dev)) {
        (s, Err(CpuError::DeviceIdExists))
    } else {
        (CpuView { devs: s.devs.push(dev), ..s }, Ok(()))
    }
}

/// What a store answers, from what the device's secondary action answered:
/// `NoOutput` is what a write answers and counts as success.
pub open spec fn store_answer(r: Result<(), DeviceError>) -> Result<(), CpuError> {
    match r {
        Ok(()) => Ok(()),
        Err(DeviceError::NoOutput) => Ok(()),
        Err(e) => Err(CpuError::Device(e)),
    }
}

/// An instruction writes `value` into register `k`.
pub open spec fn write_reg<V>(
    s: CpuView<V>,
    k: int,
    value: u16,
) -> (CpuView<V>, Result<(), CpuError>) {
    (CpuView { regs: s.regs.update(k, value), ..s }, Ok(()))
}

/// The state and answer of executing `inst` when no instruction is skipped.
pub open spec fn dispatch<D: Device>(
    s: CpuView<D::V>,
    inst: InstructionView,
) -> (CpuView<D::V>, Result<(), CpuError>) {
    let src = src_value(s.regs, inst);
    match inst.opcode {
        Opcode::Inv => (s, Err(CpuError::ProgramError)),
        Opcode::Nop => (CpuView { flags: with_nop(s.flags), ..s }, Ok(())),
        Opcode::Hlt => (s, Ok(())),
        Opcode::Sgr => match register_index(inst.dst) {
            Some(k) => write_reg(s, k, src),
            None => (s, Err(CpuError::ProgramError)),
        },
        Opcode::Srd => select::<D>(s, src),
        Opcode::Lod => match register_index(inst.dst) {
            None => (s, Err(CpuError::ProgramError)),
            Some(k) => match active_index::<D>(s) {
                None => (s, Err(CpuError::DeviceDoesNotExist)),
                Some(d) => match D::spec_primary(s.devs[d], src) {
                    Ok(w) => write_reg(s, k, w),
                    Err(e) => (s, Err(CpuError::Device(e))),
                },
            },
        },
        Opcode::Str => match dst_value(s.regs, inst) {
            None => (s, Err(CpuError::ProgramError)),
            Some(addr) => match active_index::<D>(s) {
                None => (s, Err(CpuError::DeviceDoesNotExist)),
                Some(d) => (
                    CpuView {
                        devs: s.devs.update(d, D::spec_after_secondary(s.devs[d], src, addr)),
                        ..s
                    },
                    store_answer(D::spec_secondary(s.devs[d], src, addr)),
                ),
            },
        },
        Opcode::Add => match register_index(inst.dst) {
            Some(k) => write_reg(s, k, wrap_add(s.regs[k], src)),
            None => (s, Err(CpuError::ProgramError)),
        },
    }
}

/// The state and answer of one call of `exec_instruction`: a skipped
/// instruction only clears the no-op flag.
pub open spec fn step<D: Device>(
    s: CpuView<D::V>,
    inst: InstructionView,
) -> (CpuView<D::V>, Result<(), CpuError>) {
    if skipping(s) {
        (CpuView { flags: without_nop(s.flags), ..s }, Ok(()))
    } else {
        dispatch::<D>(s, inst)
    }
}

/// A no-op sets the skip flag and touches nothing else; the next call
/// consumes any instruction with no effect, bringing back the state from
/// before the no-op with the flag clear; the call after that executes
/// normally.
pub proof fn lemma_nop_skips_next<D: Device>(
    s: CpuView<D::V>,
    nop: InstructionView,
    next: InstructionView,
    after: InstructionView,
)
    requires
        !skipping(s),
        nop.opcode == Opcode::Nop,
    ensures
        step::<D>(s, nop).1 == Ok::<(), CpuError>(()),
        skipping(step::<D>(s, nop).0),
        step::<D>(s, nop).0.regs == s.regs,
        step::<D>(s, nop).0.devs == s.devs,
        step::<D>(s, nop).0.active == s.active,
        step::<D>(step::<D>(s, nop).0, next) == (s, Ok::<(), CpuError>(())),
        step::<D>(s, after) == dispatch::<D>(s, after),
{
}

/// Connecting a second device with the id of one just connected fails and
/// leaves the cpu holding the first device and nothing more.
pub proof fn lemma_connect_duplicate<D: Device>(s: CpuView<D::V>, first: D::V, second: D::V)
    requires
        s.devs.len() < MAX_DEVICES,
        !has_id::<D>(s.devs, D::spec_id(first)),
        D::spec_id(second) == D::spec_id(first),
    ensures
        connect::<D>(s, first) == (
            CpuView { devs: s.devs.push(first), ..s },
            Ok::<(), CpuError>(()),
        ),
        connect::<D>(connect::<D>(s, first).0, second).1 is Err,
        connect::<D>(connect::<D>(s, first).0, second).0 == connect::<D>(s, first).0,
{
    let after = s.devs.push(first);
    assert(after[s.devs.len() as int] == first);
    assert(has_id::<D>(after, D::spec_id(second)));
}

/// An invalid opcode leaves the state as it is, and fails with
/// `ProgramError` unless it is being skipped.
pub proof fn lemma_invalid_opcode<D: Device>(s: CpuView<D::V>, inst: InstructionView)
    requires
        inst.opcode == Opcode::Inv,
    ensures
        step::<D>(s, inst).0.regs == s.regs,
        step::<D>(s, inst).0.devs == s.devs,
        step::<D>(s, inst).0.active == s.active,
        !skipping(s) ==> step::<D>(s, inst) == (s, Err::<(), CpuError>(CpuError::ProgramError)),
{
}

/// Selecting an id that no connected device has fails and keeps the
/// active device.
pub proof fn lemma_select_unregistered<D: Device>(s: CpuView<D::V>, id: u16)
    requires
        !has_id::<D>(s.devs, id),
    ensures
        select::<D>(s, id) == (s, Err::<(), CpuError>(CpuError::DeviceDoesNotExist)),
        select::<D>(s, id).0.active == s.active,
{
}

/// With unique ids, the device found at `i` is the one `index_of` names.
proof fn lemma_index_of_unique<D: Device>(devs: Seq<D::V>, id: u16, i: int)
    requires
        unique_ids::<D>(devs),
        0 <= i < devs.len(),
        D::spec_id(devs[i]) == id,
    ensures
        index_of::<D>(devs, id) == Some(i),
{
    assert(has_id::<D>(devs, id));
}

/// The execution engine.
pub struct Cpu<D: Device> {
    gp_regs: [u16; 4],
    flags_reg: u16,
    inst_ptr: u16,
    active_ram_dev: Option<u16>,
    bus: Bus<D>,
}

impl<D: Device> View for Cpu<D> {
    type V = CpuView<D::V>;

    closed spec fn view(&self) -> CpuView<D::V> {
        CpuView {
            regs: self.gp_regs@,
            flags: self.flags_reg,
            inst_ptr: self.inst_ptr,
            active: self.active_ram_dev,
            devs: self.bus@,
        }
    }
}

impl<D: Device> Cpu<D> {
    /// Four registers, and no two devices with one id.
    pub open spec fn wf(&self) -> bool {
        &&& self@.regs.len() == 4
        &&& unique_ids::<D>(self@.devs)
    }

    pub fn new() -> (r: Self)
        ensures
            r.wf(),
            r@ == (CpuView {
                regs: seq![0u16, 0u16, 0u16, 0u16],
                flags: 0,
                inst_ptr: 0,
                active: None,
                devs: Seq::<D::V>::empty(),
            }),
    {
        let r = Cpu {
            gp_regs: [0u16; 4],
            flags_reg: 0,
            inst_ptr: 0,
            active_ram_dev: None,
            bus: Bus::new(),
        };
        assert(r@.regs =~= seq![0u16, 0u16, 0u16, 0u16]);
        r
    }

    /// Connects `dev`: refused when 65536 devices are connected, or when
    /// one of them has the id of `dev`.
    pub fn connect_device(&mut self, dev: D) -> (r: Result<(), CpuError>)
        requires
            old(self).wf(),
        ensures
            final(self).wf(),
            (final(self)@, r) == connect::<D>(old(self)@, dev@),
    {
        if self.bus.len() >= MAX_DEVICES {
            return Err(CpuError::TooManyDevices);
        }
        match self.bus.connect_dev(dev) {
            Ok(()) => Ok(()),
            Err(BusError::DeviceIdExists) => Err(CpuError::DeviceIdExists),
        }
    }

    /// Makes the device with `id` the active ram device; when none has that
    /// id, fails and keeps the earlier choice.
    pub fn set_ram_dev(&mut self, id: u16) -> (r: Result<(), CpuError>)
        requires
            old(self).wf(),
        ensures
            final(self).wf(),
            (final(self)@, r) == select::<D>(old(self)@, id),
    {
        match self.bus.find(id) {
            None => Err(CpuError::DeviceDoesNotExist),
            Some(_) => {
                self.active_ram_dev = Some(id);
                Ok(())
            },
        }
    }

    pub fn gp_regs(&self) -> (r: [u16; 4])
        ensures
            r@ == self@.regs,
    {
        self.gp_regs
    }

    pub fn flags(&self) -> (r: u16)
        ensures
            r == self@.flags,
    {
        self.flags_reg
    }

    pub fn inst_ptr(&self) -> (r: u16)
        ensures
            r == self@.inst_ptr,
    {
        self.inst_ptr
    }

    /// Sets the instruction pointer, which the driver advances.
    pub fn set_inst_ptr(&mut self, ip: u16)
        ensures
            final(self)@ == (CpuView { inst_ptr: ip, ..old(self)@ }),
    {
        self.inst_ptr = ip;
    }

    /// The id of the active ram device, if one was selected.
    pub fn active_id(&self) -> (r: Option<u16>)
        ensures
            r == self@.active,
    {
        self.active_ram_dev
    }

    pub fn device_count(&self) -> (r: usize)
        ensures
            r == self@.devs.len(),
    {
        self.bus.len()
    }

    /// The connected device with `id`, if there is one.
    pub fn device(&self, id: u16) -> (r: Option<&D>)
        requires
            self.wf(),
        ensures
            r matches Some(d) ==> index_of::<D>(self@.devs, id) matches Some(i)
                && d@ == self@.devs[i],
            r is None <==> !has_id::<D>(self@.devs, id),
    {
        match self.bus.find(id) {
            None => None,
            Some(i) => {
                proof {
                    lemma_index_of_unique::<D>(self@.devs, id, i as int);
                }
                Some(self.bus.device(i))
            },
        }
    }

    fn src_operand(&self, inst: &Instruction) -> (r: u16)
        ensures
            r == src_value(self@.regs, inst@),
    {
        match inst.src() {
            Operand::Invalid => 0,
            Operand::GpRegister0 => self.gp_regs[0],
            Operand::GpRegister1 => self.gp_regs[1],
            Operand::GpRegister2 => self.gp_regs[2],
            Operand::GpRegister3 => self.gp_regs[3],
            Operand::InstImm => inst.imm(),
        }
    }

    /// The register the destination operand names, if it names one.
    fn dst_operand(inst: &Instruction) -> (r: Option<usize>)
        ensures
            r matches Some(k) ==> k < 4,
            r matches Some(k) ==> register_index(inst@.dst) == Some(k as int),
            r is None ==> register_index(inst@.dst) is None,
    {
        match inst.dst() {
            Operand::GpRegister0 => Some(0),
            Operand::GpRegister1 => Some(1),
            Operand::GpRegister2 => Some(2),
            Operand::GpRegister3 => Some(3),
            _ => None,
        }
    }

    fn dst_value(&self, inst: &Instruction) -> (r: Option<u16>)
        ensures
            r == dst_value(self@.regs, inst@),
    {
        match inst.dst() {
            Operand::Invalid => None,
            Operand::GpRegister0 => Some(self.gp_regs[0]),
            Operand::GpRegister1 => Some(self.gp_regs[1]),
            Operand::GpRegister2 => Some(self.gp_regs[2]),
            Operand::GpRegister3 => Some(self.gp_regs[3]),
            Operand::InstImm => Some(inst.imm()),
        }
    }

    /// Position of the active ram device, resolved by id each time.
    fn active_ram_dev(&self) -> (r: Option<usize>)
        requires
            self.wf(),
        ensures
            r matches Some(d) ==> d < self@.devs.len() && active_index::<D>(self@) == Some(
                d as int,
            ),
            r is None ==> active_index::<D>(self@) is None,
    {
        match self.active_ram_dev {
            None => None,
            Some(id) => {
                let found = self.bus.find(id);
                if let Some(d) = found {
                    proof {
                        lemma_index_of_unique::<D>(self@.devs, id, d as int);
                    }
                }
                found
            },
        }
    }

    /// Executes one instruction. While the no-op flag is set the
    /// instruction is skipped and the flag cleared; otherwise the opcode
    /// decides, and a device's failure is the call's failure.
    pub fn exec_instruction(&mut self, inst: Instruction) -> (r: Result<(), CpuError>)
        requires
            old(self).wf(),
        ensures
            final(self).wf(),
            (final(self)@, r) == step::<D>(old(self)@, inst@),
    {
        let f = self.flags_reg;
        assert((f & 1u16 != 0) == (f % 2 == 1) && f & !1u16 == f - f % 2 && f | 1u16 == f - f % 2
            + 1) by (bit_vector);
        if self.flags_reg & NOP_FLAG != 0 {
            self.flags_reg = self.flags_reg & !NOP_FLAG;
            return Ok(());
        }
        let src = self.src_operand(&inst);
        match inst.opcode() {
            Opcode::Inv => Err(CpuError::ProgramError),
            Opcode::Nop => {
                self.flags_reg = self.flags_reg | NOP_FLAG;
                Ok(())
            },
            Opcode::Hlt => Ok(()),
            Opcode::Sgr => match Self::dst_operand(&inst) {
                Some(k) => {
                    self.gp_regs[k] = src;
                    Ok(())
                },
                None => Err(CpuError::ProgramError),
            },
            Opcode::Srd => self.set_ram_dev(src),
            Opcode::Lod => match Self::dst_operand(&inst) {
                None => Err(CpuError::ProgramError),
                Some(k) => match self.active_ram_dev() {
                    None => Err(CpuError::DeviceDoesNotExist),
                    Some(d) => match self.bus.device(d).act_primary(src) {
                        Ok(w) => {
                            self.gp_regs[k] = w;
                            Ok(())
                        },
                        Err(e) => Err(CpuError::Device(e)),
                    },
                },
            },
            Opcode::Str => match self.dst_value(&inst) {
                None => Err(CpuError::ProgramError),
                Some(addr) => match self.active_ram_dev() {
                    None => Err(CpuError::DeviceDoesNotExist),
                    Some(d) => match self.bus.act_secondary_at(d, src, addr) {
                        Ok(()) => Ok(()),
                        Err(DeviceError::NoOutput) => Ok(()),
                        Err(e) => Err(CpuError::Device(e)),
                    },
                },
            },
            Opcode::Add => match Self::dst_operand(&inst) {
                Some(k) => {
                    self.gp_regs[k] = self.gp_regs[k].wrapping_add(src);
                    Ok(())
                },
                None => Err(CpuError::ProgramError),
            },
        }
    }
}

} // verus!
