use vstd::prelude::*;

verus! {

/// The operation an instruction requests.
///
/// Legal operands, as `source -> destination` (`.` none, `gpr` a general
/// purpose register, `imm` the instruction's immediate):
/// - `Inv`, `Nop`, `Hlt`: `. -> .`
/// - `Sgr`, `Lod`, `Add`: `gpr/imm -> gpr`
/// - `Srd`: `gpr/imm -> .`
/// - `Str`: `gpr/imm -> gpr/imm` (the destination supplies the address)
#[derive(Clone, Copy, Debug, PartialEq, Eq, Structural)]
pub enum Opcode {
    /// invalid
    Inv,
    /// no operation: the next instruction is skipped
    Nop,
    /// halt execution
    Hlt,
    /// set a register
    Sgr,
    /// select the active ram device
    Srd,
    /// load a word from ram
    Lod,
    /// store a word to ram
    Str,
    /// add to a register
    Add,
}

/// Where an operand is read from or written to.
#[derive(Clone, Copy, Debug, PartialEq, Eq, Structural)]
pub enum Operand {
    Invalid,
    GpRegister0,
    GpRegister1,
    GpRegister2,
    GpRegister3,
    InstImm,
}

/// The numeric code of an opcode.
pub open spec fn opcode_code(op: Opcode) -> u8 {
    match op {
        Opcode::Inv => 0,
        Opcode::Nop => 1,
        Opcode::Hlt => 2,
        Opcode::Sgr => 3,
        Opcode::Srd => 4,
        Opcode::Lod => 5,
        Opcode::Str => 6,
        Opcode::Add => 7,
    }
}

/// The opcode a byte decodes to: codes past 7 are `Inv`.
pub open spec fn opcode_of_byte(b: u8) -> Opcode {
    if b == 1 {
        Opcode::Nop
    } else if b == 2 {
        Opcode::Hlt
    } else if b == 3 {
        Opcode::Sgr
    } else if b == 4 {
        Opcode::Srd
    } else if b == 5 {
        Opcode::Lod
    } else if b == 6 {
        Opcode::Str
    } else if b == 7 {
        Opcode::Add
    } else {
        Opcode::Inv
    }
}

/// The numeric code of an operand selector.
pub open spec fn operand_code(op: Operand) -> u8 {
    match op {
        Operand::Invalid => 0,
        Operand::GpRegister0 => 1,
        Operand::GpRegister1 => 2,
        Operand::GpRegister2 => 3,
        Operand::GpRegister3 => 4,
        Operand::InstImm => 5,
    }
}

/// The operand selector a value decodes to: codes past 5 are `Invalid`.
pub open spec fn operand_of_byte(b: u8) -> Operand {
    if b == 1 {
        Operand::GpRegister0
    } else if b == 2 {
        Operand::GpRegister1
    } else if b == 3 {
        Operand::GpRegister2
    } else if b == 4 {
        Operand::GpRegister3
    } else if b == 5 {
        Operand::InstImm
    } else {
        Operand::Invalid
    }
}

/// The register a selector names, if it names one.
pub open spec fn register_index(op: Operand) -> Option<int> {
    match op {
        Operand::GpRegister0 => Some(0),
        Operand::GpRegister1 => Some(1),
        Operand::GpRegister2 => Some(2),
        Operand::GpRegister3 => Some(3),
        _ => None,
    }
}

impl Opcode {
    pub fn code(&self) -> (r: u8)
        ensures
            r == opcode_code(*self),
    {
        match self {
            Opcode::Inv => 0,
            Opcode::Nop => 1,
            Opcode::Hlt => 2,
            Opcode::Sgr => 3,
            Opcode::Srd => 4,
            Opcode::Lod => 5,
            Opcode::Str => 6,
            Opcode::Add => 7,
        }
    }
}

impl Operand {
    pub fn code(&self) -> (r: u8)
        ensures
            r == operand_code(*self),
    {
        match self {
            Operand::Invalid => 0,
            Operand::GpRegister0 => 1,
            Operand::GpRegister1 => 2,
            Operand::GpRegister2 => 3,
            Operand::GpRegister3 => 4,
            Operand::InstImm => 5,
        }
    }
}

impl From<u8> for Opcode {
    fn from(opcode: u8) -> (r: Self)
        ensures
            r == opcode_of_byte(opcode),
    {
        match opcode {
            1 => Opcode::Nop,
            2 => Opcode::Hlt,
            3 => Opcode::Sgr,
            4 => Opcode::Srd,
            5 => Opcode::Lod,
            6 => Opcode::Str,
            7 => Opcode::Add,
            _ => Opcode::Inv,
        }
    }
}

impl vstd::std_specs::convert::FromSpecImpl<u8> for Opcode {
    open spec fn obeys_from_spec() -> bool {
        true
    }

    open spec fn from_spec(v: u8) -> Opcode {
        opcode_of_byte(v)
    }
}

impl From<u8> for Operand {
    fn from(operand: u8) -> (r: Self)
        ensures
            r == operand_of_byte(operand),
    {
        match operand {
            1 => Operand::GpRegister0,
            2 => Operand::GpRegister1,
            3 => Operand::GpRegister2,
            4 => Operand::GpRegister3,
            5 => Operand::InstImm,
            _ => Operand::Invalid,
        }
    }
}

impl vstd::std_specs::convert::FromSpecImpl<u8> for Operand {
    open spec fn obeys_from_spec() -> bool {
        true
    }

    open spec fn from_spec(v: u8) -> Operand {
        operand_of_byte(v)
    }
}

/// Decoding is total and inverts encoding: each byte decodes to an opcode
/// and to an operand selector, the codes 1 to 7 (resp. 1 to 5) to the one
/// they encode and every other byte to `Inv` (resp. `Invalid`).
pub proof fn lemma_decode_total(b: u8)
    ensures
        opcode_code(opcode_of_byte(b)) == (if b <= 7 { b } else { 0u8 }),
        operand_code(operand_of_byte(b)) == (if b <= 5 { b } else { 0u8 }),
        forall|op: Opcode| #[trigger] opcode_of_byte(opcode_code(op)) == op,
        forall|op: Operand| #[trigger] operand_of_byte(operand_code(op)) == op,
{
}

/// A decoded instruction: opcode, source and destination selectors, immediate.
pub struct InstructionView {
    pub opcode: Opcode,
    pub src: Operand,
    pub dst: Operand,
    pub imm: u16,
}

/// One instruction, as the machine encodes it: an opcode byte, an operand
/// byte (source selector in bits 0..4, destination selector in bits 4..8)
/// and a 16-bit immediate.
pub struct Instruction {
    opcode: u8,
    operands: u8,
    imm: u16,
}

impl View for Instruction {
    type V = InstructionView;

    closed spec fn view(&self) -> InstructionView {
        InstructionView {
            opcode: opcode_of_byte(self.opcode),
            src: operand_of_byte(self.operands & 0xf),
            dst: operand_of_byte((self.operands & 0xf0) >> 4),
            imm: self.imm,
        }
    }
}

impl Instruction {
    pub fn new(opcode: Opcode, src: Operand, dst: Operand) -> (r: Self)
        ensures
            r@ == (InstructionView { opcode, src, dst, imm: 0 }),
    {
        Self::with_imm(opcode, src, dst, 0)
    }

    pub fn with_imm(opcode: Opcode, src: Operand, dst: Operand, imm: u16) -> (r: Self)
        ensures
            r@ == (InstructionView { opcode, src, dst, imm }),
    {
        let s = src.code();
        let d = dst.code();
        let operands: u8 = s | (d << 4u8);
        assert(operands & 0xf == s && (operands & 0xf0) >> 4u8 == d) by (bit_vector)
            requires
                s <= 5,
                d <= 5,
                operands == s | (d << 4u8),
        ;
        Instruction { opcode: opcode.code(), operands, imm }
    }

    /// Decodes raw fields; every value decodes, unknown codes to `Inv` or
    /// `Invalid`.
    pub fn from_raw(opcode: u8, operands: u8, imm: u16) -> (r: Self)
        ensures
            r@ == (InstructionView {
                opcode: opcode_of_byte(opcode),
                src: operand_of_byte(operands & 0xf),
                dst: operand_of_byte((operands & 0xf0) >> 4),
                imm,
            }),
    {
        Instruction { opcode, operands, imm }
    }

    pub fn opcode(&self) -> (r: Opcode)
        ensures
            r == self@.opcode,
    {
        Opcode::from(self.opcode)
    }

    pub fn src(&self) -> (r: Operand)
        ensures
            r == self@.src,
    {
        Operand::from(self.operands & 0xf)
    }

    pub fn dst(&self) -> (r: Operand)
        ensures
            r == self@.dst,
    {
        Operand::from((self.operands & 0xf0) >> 4)
    }

    pub fn imm(&self) -> (r: u16)
        ensures
            r == self@.imm,
    {
        self.imm
    }
}

} // verus!
