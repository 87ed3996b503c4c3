//! The instruction set of the PIC16F88 and its 14-bit encoding.
use vstd::prelude::*;

verus! {

/// A 7-bit address into the current bank of the register file.
#[derive(Debug, Clone, Copy, PartialEq, Eq, Structural)]
pub struct RegisterFileAddr(pub u8);

impl RegisterFileAddr {
    pub fn new(addr: u8) -> (r: Self)
        ensures
            r.0 == addr,
    {
        RegisterFileAddr(addr)
    }
}

/// An 11-bit word address in program memory, as carried by GOTO and CALL.
#[derive(Debug, Clone, Copy, PartialEq, Eq, Structural)]
pub struct ProgramAddr(pub u16);

impl ProgramAddr {
    pub fn new(addr: u16) -> (r: Self)
        ensures
            r.0 == addr,
    {
        ProgramAddr(addr)
    }
}

/// The index of a bit within a byte, 0 to 7.
#[derive(Debug, Clone, Copy, PartialEq, Eq, Structural)]
pub struct BitIndex(pub u8);

impl BitIndex {
    pub fn new(i: u8) -> (r: Self)
        requires
            i < 8,
        ensures
            r.0 == i,
    {
        BitIndex(i)
    }
}

#[derive(Debug, Clone, Copy, PartialEq, Eq, Structural)]
pub enum Destination {
    /// Destination is W register
    W,
    /// Destination is the register pointed by f operand
    F,
}

#[derive(Debug, Clone, Copy, PartialEq, Eq, Structural)]
pub enum Instruction {
    ByteOriented(ByteOrientedInstruction),
    BitOriented(BitOrientedInstruction),
    LiteralOriented(LiteralOrientedInstruction),
    Control(ControlInstruction),
}

#[derive(Debug, Clone, Copy, PartialEq, Eq, Structural)]
pub struct ByteOrientedInstruction {
    pub op: ByteOrientedOperation,
    pub f: RegisterFileAddr,
    pub dest: Destination,
}

#[derive(Debug, Clone, Copy, PartialEq, Eq, Structural)]
pub enum ByteOrientedOperation {
    /// `W + f`; affects C, DC, Z.
    AddWf,
    /// `W & f`; affects Z.
    AndWf,
    /// `!f`; affects Z.
    ComplementF,
    /// `f - 1`; affects Z.
    DecrementF,
    /// `f - 1`, skipping the next instruction when the result is zero.
    DecrementFSkipIfZ,
    /// `f + 1`; affects Z.
    IncrementF,
    /// `f + 1`, skipping the next instruction when the result is zero.
    IncrementFSkipIfZ,
    /// `W | f`; affects Z.
    OrWf,
    /// `f`; affects Z.
    MoveF,
    /// Rotate f left through the carry flag; affects C.
    RotateLeftFThroughCarry,
    /// Rotate f right through the carry flag; affects C.
    RotateRightFThroughCarry,
    /// `f - W`; affects C, DC, Z.
    SubtractWfromF,
    /// Exchange the two nibbles of f.
    SwapF,
    /// `W ^ f`; affects Z.
    XorWwithF,
}

#[derive(Debug, Clone, Copy, PartialEq, Eq, Structural)]
pub struct BitOrientedInstruction {
    pub op: BitOrientedOperation,
    pub b: BitIndex,
    pub f: RegisterFileAddr,
}

#[derive(Debug, Clone, Copy, PartialEq, Eq, Structural)]
pub enum BitOrientedOperation {
    /// `0 -> f<b>`
    BitClearF,
    /// `1 -> f<b>`
    BitSetF,
    /// Skip the next instruction if `f<b>` is 0.
    SkipIfFBitClear,
    /// Skip the next instruction if `f<b>` is 1.
    SkipIfFBitSet,
}

#[derive(Debug, Clone, Copy, PartialEq, Eq, Structural)]
pub struct LiteralOrientedInstruction {
    pub op: LiteralOrientedOperation,
    pub k: u8,
}

#[derive(Debug, Clone, Copy, PartialEq, Eq, Structural)]
pub enum LiteralOrientedOperation {
    /// `k - W -> W`; affects C, DC, Z.
    SubtractWFromLiteral,
    /// `W ^ k -> W`; affects Z.
    XorLiteralWithW,
    /// `W | k -> W`; affects Z.
    OrLiteralWithW,
    /// `k -> W`
    MoveLiteralToW,
    /// `k -> W`, then return from a subroutine.
    ReturnWithLiteralInW,
    /// `W + k -> W`; affects C, DC, Z.
    AddLiteralToW,
    /// `W & k -> W`; affects Z.
    AndLiteralWithW,
}

#[derive(Debug, Clone, Copy, PartialEq, Eq, Structural)]
pub enum ControlInstruction {
    /// Clear the watchdog timer.
    ClearWatchDogTimer,
    /// Return from an interrupt handler.
    ReturnFromInterrupt,
    /// Return from a subroutine.
    Return,
    /// Enter sleep mode.
    Sleep,
    /// No operation.
    Noop,
    /// `addr -> PC<10:0>`, `PCLATH<4:3> -> PC<12:11>`
    Goto { addr: ProgramAddr },
    /// Push the return address, then jump as `Goto` does.
    Call { addr: ProgramAddr },
    /// `0 -> f`, `1 -> Z`
    ClearF { f: RegisterFileAddr },
    /// `0 -> W`, `1 -> Z`
    ClearW,
    /// `W -> f`
    MoveWtoF { f: RegisterFileAddr },
}

// ---------------------------------------------------------------------------
// Operand ranges

impl Instruction {
    /// Every operand is within the width of its field: a 7-bit register
    /// address, a 3-bit bit index, an 11-bit program address.
    pub open spec fn wf(self) -> bool {
        match self {
            Instruction::ByteOriented(x) => x.f.0 < 128,
            Instruction::BitOriented(x) => x.f.0 < 128 && x.b.0 < 8,
            Instruction::LiteralOriented(_) => true,
            Instruction::Control(c) => match c {
                ControlInstruction::Goto { addr } => addr.0 < 0x800,
                ControlInstruction::Call { addr } => addr.0 < 0x800,
                ControlInstruction::ClearF { f } => f.0 < 128,
                ControlInstruction::MoveWtoF { f } => f.0 < 128,
                _ => true,
            },
        }
    }
}

// ---------------------------------------------------------------------------
// Decoding

/// The byte-oriented operation whose opcode sits in bits 13..8.
pub open spec fn byte_operation_of(opcode: u16) -> Option<ByteOrientedOperation> {
    match opcode {
        0x07 => Some(ByteOrientedOperation::AddWf),
        0x05 => Some(ByteOrientedOperation::AndWf),
        0x09 => Some(ByteOrientedOperation::ComplementF),
        0x03 => Some(ByteOrientedOperation::DecrementF),
        0x0B => Some(ByteOrientedOperation::DecrementFSkipIfZ),
        0x0A => Some(ByteOrientedOperation::IncrementF),
        0x0F => Some(ByteOrientedOperation::IncrementFSkipIfZ),
        0x04 => Some(ByteOrientedOperation::OrWf),
        0x08 => Some(ByteOrientedOperation::MoveF),
        0x0D => Some(ByteOrientedOperation::RotateLeftFThroughCarry),
        0x0C => Some(ByteOrientedOperation::RotateRightFThroughCarry),
        0x02 => Some(ByteOrientedOperation::SubtractWfromF),
        0x0E => Some(ByteOrientedOperation::SwapF),
        0x06 => Some(ByteOrientedOperation::XorWwithF),
        _ => None,
    }
}

/// The bit-oriented operation whose opcode sits in bits 13..10.
pub open spec fn bit_operation_of(opcode: u16) -> Option<BitOrientedOperation> {
    match opcode {
        0x10 => Some(BitOrientedOperation::BitClearF),
        0x14 => Some(BitOrientedOperation::BitSetF),
        0x18 => Some(BitOrientedOperation::SkipIfFBitClear),
        0x1C => Some(BitOrientedOperation::SkipIfFBitSet),
        _ => None,
    }
}

/// The file-address operand, bits 6..0.
pub open spec fn file_operand(i: u16) -> RegisterFileAddr {
    RegisterFileAddr((i & 0x7F) as u8)
}

pub open spec fn decode_byte_oriented(i: u16) -> Option<ByteOrientedInstruction> {
    match byte_operation_of((i & 0x3F00) >> 8) {
        Some(op) => Some(
            ByteOrientedInstruction {
                op,
                f: file_operand(i),
                dest: if i & 0x80 == 0 {
                    Destination::W
                } else {
                    Destination::F
                },
            },
        ),
        None => None,
    }
}

pub open spec fn decode_bit_oriented(i: u16) -> Option<BitOrientedInstruction> {
    match bit_operation_of((i & 0x3C00) >> 8) {
        Some(op) => Some(
            BitOrientedInstruction { op, b: BitIndex(((i & 0x0380) >> 7) as u8), f: file_operand(i) },
        ),
        None => None,
    }
}

/// The literal-oriented patterns, each a `(mask, value)` pair on bits 13..8,
/// tried in this order.
pub open spec fn literal_operation_of(i: u16) -> Option<LiteralOrientedOperation> {
    if i & 0x3C00 == 0x3000 {
        Some(LiteralOrientedOperation::MoveLiteralToW)
    } else if i & 0x3E00 == 0x3E00 {
        Some(LiteralOrientedOperation::AddLiteralToW)
    } else if i & 0x3F00 == 0x3900 {
        Some(LiteralOrientedOperation::AndLiteralWithW)
    } else if i & 0x3F00 == 0x3800 {
        Some(LiteralOrientedOperation::OrLiteralWithW)
    } else if i & 0x3C00 == 0x3400 {
        Some(LiteralOrientedOperation::ReturnWithLiteralInW)
    } else if i & 0x3E00 == 0x3C00 {
        Some(LiteralOrientedOperation::SubtractWFromLiteral)
    } else if i & 0x3F00 == 0x3A00 {
        Some(LiteralOrientedOperation::XorLiteralWithW)
    } else {
        None
    }
}

pub open spec fn decode_literal_oriented(i: u16) -> Option<LiteralOrientedInstruction> {
    match literal_operation_of(i) {
        Some(op) => Some(LiteralOrientedInstruction { op, k: (i & 0xFF) as u8 }),
        None => None,
    }
}

/// The control patterns, tried in this order. Like every other pattern they
/// ignore bits 15 and 14, which lie outside the 14-bit code word.
pub open spec fn decode_control(i: u16) -> Option<ControlInstruction> {
    if i & 0x3FFF == 0x0008 {
        Some(ControlInstruction::Return)
    } else if i & 0x3FFF == 0x0064 {
        Some(ControlInstruction::ClearWatchDogTimer)
    } else if i & 0x3FFF == 0x0009 {
        Some(ControlInstruction::ReturnFromInterrupt)
    } else if i & 0x3FFF == 0x0063 {
        Some(ControlInstruction::Sleep)
    } else if i & 0x3F9F == 0x0000 {
        Some(ControlInstruction::Noop)
    } else if i & 0x3F80 == 0x0100 {
        Some(ControlInstruction::ClearW)
    } else if i & 0x3800 == 0x2800 {
        Some(ControlInstruction::Goto { addr: ProgramAddr(i & 0x07FF) })
    } else if i & 0x3800 == 0x2000 {
        Some(ControlInstruction::Call { addr: ProgramAddr(i & 0x07FF) })
    } else if i & 0x3F80 == 0x0180 {
        Some(ControlInstruction::ClearF { f: file_operand(i) })
    } else if i & 0x3F80 == 0x0080 {
        Some(ControlInstruction::MoveWtoF { f: file_operand(i) })
    } else {
        None
    }
}

/// The instruction a code word stands for: byte-oriented patterns first, then
/// bit-oriented, literal-oriented and control patterns.
pub open spec fn decode(i: u16) -> Option<Instruction> {
    if let Some(x) = decode_byte_oriented(i) {
        Some(Instruction::ByteOriented(x))
    } else if let Some(x) = decode_bit_oriented(i) {
        Some(Instruction::BitOriented(x))
    } else if let Some(x) = decode_literal_oriented(i) {
        Some(Instruction::LiteralOriented(x))
    } else if let Some(x) = decode_control(i) {
        Some(Instruction::Control(x))
    } else {
        None
    }
}

proof fn lemma_operand_ranges(i: u16)
    ensures
        (i & 0x7F) < 128,
        ((i & 0x0380) >> 7) < 8,
        (i & 0x07FF) < 0x800,
        (i & 0xFF) < 256,
{
    assert((i & 0x7F) < 128) by (bit_vector);
    assert(((i & 0x0380) >> 7) < 8) by (bit_vector);
    assert((i & 0x07FF) < 0x800) by (bit_vector);
    assert((i & 0xFF) < 256) by (bit_vector);
}

/// A decoded instruction always has its operands in range.
pub proof fn lemma_decode_wf(i: u16)
    ensures
        decode(i) matches Some(inst) ==> inst.wf(),
{
    lemma_operand_ranges(i);
}

impl Instruction {
    pub fn from_code(i: u16) -> (r: Option<Instruction>)
        ensures
            r == decode(i),
            r matches Some(inst) ==> inst.wf(),
    {
        proof {
            lemma_decode_wf(i);
        }
        if let Some(x) = ByteOrientedInstruction::from_code(i) {
            Some(Instruction::ByteOriented(x))
        } else if let Some(x) = BitOrientedInstruction::from_code(i) {
            Some(Instruction::BitOriented(x))
        } else if let Some(x) = LiteralOrientedInstruction::from_code(i) {
            Some(Instruction::LiteralOriented(x))
        } else if let Some(x) = ControlInstruction::from_code(i) {
            Some(Instruction::Control(x))
        } else {
            None
        }
    }
}

impl ByteOrientedInstruction {
    pub fn from_code(i: u16) -> (r: Option<ByteOrientedInstruction>)
        ensures
            r == decode_byte_oriented(i),
    {
        let op = match (i & 0x3F00) >> 8 {
            0x07 => ByteOrientedOperation::AddWf,
            0x05 => ByteOrientedOperation::AndWf,
            0x09 => ByteOrientedOperation::ComplementF,
            0x03 => ByteOrientedOperation::DecrementF,
            0x0B => ByteOrientedOperation::DecrementFSkipIfZ,
            0x0A => ByteOrientedOperation::IncrementF,
            0x0F => ByteOrientedOperation::IncrementFSkipIfZ,
            0x04 => ByteOrientedOperation::OrWf,
            0x08 => ByteOrientedOperation::MoveF,
            0x0D => ByteOrientedOperation::RotateLeftFThroughCarry,
            0x0C => ByteOrientedOperation::RotateRightFThroughCarry,
            0x02 => ByteOrientedOperation::SubtractWfromF,
            0x0E => ByteOrientedOperation::SwapF,
            0x06 => ByteOrientedOperation::XorWwithF,
            _ => {
                return None;
            },
        };
        let dest = if i & 0x80 == 0 {
            Destination::W
        } else {
            Destination::F
        };
        Some(ByteOrientedInstruction { op, f: RegisterFileAddr((i & 0x7F) as u8), dest })
    }
}

impl BitOrientedInstruction {
    pub fn from_code(i: u16) -> (r: Option<BitOrientedInstruction>)
        ensures
            r == decode_bit_oriented(i),
    {
        let op = match (i & 0x3C00) >> 8 {
            0x10 => BitOrientedOperation::BitClearF,
            0x14 => BitOrientedOperation::BitSetF,
            0x18 => BitOrientedOperation::SkipIfFBitClear,
            0x1C => BitOrientedOperation::SkipIfFBitSet,
            _ => {
                return None;
            },
        };
        proof {
            lemma_operand_ranges(i);
        }
        Some(
            BitOrientedInstruction {
                op,
                b: BitIndex::new(((i & 0x0380) >> 7) as u8),
                f: RegisterFileAddr::new((i & 0x7F) as u8),
            },
        )
    }
}

impl LiteralOrientedInstruction {
    pub fn from_code(i: u16) -> (r: Option<LiteralOrientedInstruction>)
        ensures
            r == decode_literal_oriented(i),
    {
        let op = if i & 0x3C00 == 0x3000 {
            LiteralOrientedOperation::MoveLiteralToW
        } else if i & 0x3E00 == 0x3E00 {
            LiteralOrientedOperation::AddLiteralToW
        } else if i & 0x3F00 == 0x3900 {
            LiteralOrientedOperation::AndLiteralWithW
        } else if i & 0x3F00 == 0x3800 {
            LiteralOrientedOperation::OrLiteralWithW
        } else if i & 0x3C00 == 0x3400 {
            LiteralOrientedOperation::ReturnWithLiteralInW
        } else if i & 0x3E00 == 0x3C00 {
            LiteralOrientedOperation::SubtractWFromLiteral
        } else if i & 0x3F00 == 0x3A00 {
            LiteralOrientedOperation::XorLiteralWithW
        } else {
            return None;
        };
        Some(LiteralOrientedInstruction { op, k: (i & 0xFF) as u8 })
    }
}

impl ControlInstruction {
    pub fn from_code(i: u16) -> (r: Option<ControlInstruction>)
        ensures
            r == decode_control(i),
    {
        if i & 0x3FFF == 0x0008 {
            Some(ControlInstruction::Return)
        } else if i & 0x3FFF == 0x0064 {
            Some(ControlInstruction::ClearWatchDogTimer)
        } else if i & 0x3FFF == 0x0009 {
            Some(ControlInstruction::ReturnFromInterrupt)
        } else if i & 0x3FFF == 0x0063 {
            Some(ControlInstruction::Sleep)
        } else if i & 0x3F9F == 0x0000 {
            Some(ControlInstruction::Noop)
        } else if i & 0x3F80 == 0x0100 {
            Some(ControlInstruction::ClearW)
        } else if i & 0x3800 == 0x2800 {
            Some(ControlInstruction::Goto { addr: ProgramAddr::new(i & 0x07FF) })
        } else if i & 0x3800 == 0x2000 {
            Some(ControlInstruction::Call { addr: ProgramAddr::new(i & 0x07FF) })
        } else if i & 0x3F80 == 0x0180 {
            Some(ControlInstruction::ClearF { f: RegisterFileAddr::new((i & 0x7F) as u8) })
        } else if i & 0x3F80 == 0x0080 {
            Some(ControlInstruction::MoveWtoF { f: RegisterFileAddr::new((i & 0x7F) as u8) })
        } else {
            None
        }
    }
}

} // verus!

verus! {

// ---------------------------------------------------------------------------
// Encoding

pub open spec fn byte_opcode(op: ByteOrientedOperation) -> u16 {
    match op {
        ByteOrientedOperation::AddWf => 0x07,
        ByteOrientedOperation::AndWf => 0x05,
        ByteOrientedOperation::ComplementF => 0x09,
        ByteOrientedOperation::DecrementF => 0x03,
        ByteOrientedOperation::DecrementFSkipIfZ => 0x0B,
        ByteOrientedOperation::IncrementF => 0x0A,
        ByteOrientedOperation::IncrementFSkipIfZ => 0x0F,
        ByteOrientedOperation::OrWf => 0x04,
        ByteOrientedOperation::MoveF => 0x08,
        ByteOrientedOperation::RotateLeftFThroughCarry => 0x0D,
        ByteOrientedOperation::RotateRightFThroughCarry => 0x0C,
        ByteOrientedOperation::SubtractWfromF => 0x02,
        ByteOrientedOperation::SwapF => 0x0E,
        ByteOrientedOperation::XorWwithF => 0x06,
    }
}

pub open spec fn bit_opcode(op: BitOrientedOperation) -> u16 {
    match op {
        BitOrientedOperation::BitClearF => 0x10,
        BitOrientedOperation::BitSetF => 0x14,
        BitOrientedOperation::SkipIfFBitClear => 0x18,
        BitOrientedOperation::SkipIfFBitSet => 0x1C,
    }
}

/// The mask that recognises a literal-oriented operation.
pub open spec fn literal_mask(op: LiteralOrientedOperation) -> u16 {
    match op {
        LiteralOrientedOperation::MoveLiteralToW => 0x3C00,
        LiteralOrientedOperation::AddLiteralToW => 0x3E00,
        LiteralOrientedOperation::AndLiteralWithW => 0x3F00,
        LiteralOrientedOperation::OrLiteralWithW => 0x3F00,
        LiteralOrientedOperation::ReturnWithLiteralInW => 0x3C00,
        LiteralOrientedOperation::SubtractWFromLiteral => 0x3E00,
        LiteralOrientedOperation::XorLiteralWithW => 0x3F00,
    }
}

/// The value that the masked code word of a literal-oriented operation has.
pub open spec fn literal_pattern(op: LiteralOrientedOperation) -> u16 {
    match op {
        LiteralOrientedOperation::MoveLiteralToW => 0x3000,
        LiteralOrientedOperation::AddLiteralToW => 0x3E00,
        LiteralOrientedOperation::AndLiteralWithW => 0x3900,
        LiteralOrientedOperation::OrLiteralWithW => 0x3800,
        LiteralOrientedOperation::ReturnWithLiteralInW => 0x3400,
        LiteralOrientedOperation::SubtractWFromLiteral => 0x3C00,
        LiteralOrientedOperation::XorLiteralWithW => 0x3A00,
    }
}

pub open spec fn dest_bit(d: Destination) -> u16 {
    match d {
        Destination::W => 0,
        Destination::F => 0x80,
    }
}

/// The code word of an instruction, with every don't-care bit zero.
pub open spec fn encode(inst: Instruction) -> u16 {
    match inst {
        Instruction::ByteOriented(x) => (byte_opcode(x.op) << 8) | dest_bit(x.dest) | (x.f.0 as u16),
        Instruction::BitOriented(x) => (bit_opcode(x.op) << 8) | ((x.b.0 as u16) << 7) | (x.f.0 as u16),
        Instruction::LiteralOriented(x) => literal_pattern(x.op) | (x.k as u16),
        Instruction::Control(c) => match c {
            ControlInstruction::ClearWatchDogTimer => 0x0064,
            ControlInstruction::ReturnFromInterrupt => 0x0009,
            ControlInstruction::Return => 0x0008,
            ControlInstruction::Sleep => 0x0063,
            ControlInstruction::Noop => 0x0000,
            ControlInstruction::Goto { addr } => 0x2800 | addr.0,
            ControlInstruction::Call { addr } => 0x2000 | addr.0,
            ControlInstruction::ClearF { f } => 0x0180 | (f.0 as u16),
            ControlInstruction::ClearW => 0x0100,
            ControlInstruction::MoveWtoF { f } => 0x0080 | (f.0 as u16),
        },
    }
}

/// The bits of a code word that the decoded instruction depends on.
pub open spec fn care_mask(inst: Instruction) -> u16 {
    match inst {
        Instruction::LiteralOriented(x) => literal_mask(x.op) | 0xFF,
        Instruction::Control(ControlInstruction::Noop) => 0x3F9F,
        Instruction::Control(ControlInstruction::ClearW) => 0x3F80,
        _ => 0x3FFF,
    }
}

impl Instruction {
    /// The code word of this instruction; don't-care bits are zero.
    pub fn to_code(&self) -> (r: u16)
        requires
            self.wf(),
        ensures
            r == encode(*self),
    {
        match self {
            Instruction::ByteOriented(x) => {
                let opcode: u16 = match x.op {
                    ByteOrientedOperation::AddWf => 0x07,
                    ByteOrientedOperation::AndWf => 0x05,
                    ByteOrientedOperation::ComplementF => 0x09,
                    ByteOrientedOperation::DecrementF => 0x03,
                    ByteOrientedOperation::DecrementFSkipIfZ => 0x0B,
                    ByteOrientedOperation::IncrementF => 0x0A,
                    ByteOrientedOperation::IncrementFSkipIfZ => 0x0F,
                    ByteOrientedOperation::OrWf => 0x04,
                    ByteOrientedOperation::MoveF => 0x08,
                    ByteOrientedOperation::RotateLeftFThroughCarry => 0x0D,
                    ByteOrientedOperation::RotateRightFThroughCarry => 0x0C,
                    ByteOrientedOperation::SubtractWfromF => 0x02,
                    ByteOrientedOperation::SwapF => 0x0E,
                    ByteOrientedOperation::XorWwithF => 0x06,
                };
                let d: u16 = match x.dest {
                    Destination::W => 0,
                    Destination::F => 0x80,
                };
                (opcode << 8) | d | (x.f.0 as u16)
            },
            Instruction::BitOriented(x) => {
                let opcode: u16 = match x.op {
                    BitOrientedOperation::BitClearF => 0x10,
                    BitOrientedOperation::BitSetF => 0x14,
                    BitOrientedOperation::SkipIfFBitClear => 0x18,
                    BitOrientedOperation::SkipIfFBitSet => 0x1C,
                };
                (opcode << 8) | ((x.b.0 as u16) << 7) | (x.f.0 as u16)
            },
            Instruction::LiteralOriented(x) => {
                let pattern: u16 = match x.op {
                    LiteralOrientedOperation::MoveLiteralToW => 0x3000,
                    LiteralOrientedOperation::AddLiteralToW => 0x3E00,
                    LiteralOrientedOperation::AndLiteralWithW => 0x3900,
                    LiteralOrientedOperation::OrLiteralWithW => 0x3800,
                    LiteralOrientedOperation::ReturnWithLiteralInW => 0x3400,
                    LiteralOrientedOperation::SubtractWFromLiteral => 0x3C00,
                    LiteralOrientedOperation::XorLiteralWithW => 0x3A00,
                };
                pattern | (x.k as u16)
            },
            Instruction::Control(c) => match c {
                ControlInstruction::ClearWatchDogTimer => 0x0064,
                ControlInstruction::ReturnFromInterrupt => 0x0009,
                ControlInstruction::Return => 0x0008,
                ControlInstruction::Sleep => 0x0063,
                ControlInstruction::Noop => 0x0000,
                ControlInstruction::Goto { addr } => 0x2800 | addr.0,
                ControlInstruction::Call { addr } => 0x2000 | addr.0,
                ControlInstruction::ClearF { f } => 0x0180 | (f.0 as u16),
                ControlInstruction::ClearW => 0x0100,
                ControlInstruction::MoveWtoF { f } => 0x0080 | (f.0 as u16),
            },
        }
    }
}

// ---------------------------------------------------------------------------
// Round trip between decoding and encoding

proof fn lemma_byte_code_bits(opc: u16, d: u16, f: u16)
    by (bit_vector)
    requires
        2 <= opc <= 0x0F,
        d == 0 || d == 0x80,
        f < 128,
    ensures
        (((opc << 8) | d | f) & 0x3F00) >> 8 == opc,
        ((opc << 8) | d | f) & 0x7F == f,
        (((opc << 8) | d | f) & 0x80 == 0) == (d == 0),
{
}

proof fn lemma_bit_code_bits(opc: u16, b: u16, f: u16)
    by (bit_vector)
    requires
        opc == 0x10 || opc == 0x14 || opc == 0x18 || opc == 0x1C,
        b < 8,
        f < 128,
    ensures
        0x10 <= (((opc << 8) | (b << 7) | f) & 0x3F00) >> 8 <= 0x1F,
        (((opc << 8) | (b << 7) | f) & 0x3C00) >> 8 == opc,
        (((opc << 8) | (b << 7) | f) & 0x0380) >> 7 == b,
        ((opc << 8) | (b << 7) | f) & 0x7F == f,
{
}

proof fn lemma_literal_code_bits(k: u16)
    by (bit_vector)
    requires
        k < 256,
    ensures
        (0x3000 | k) & 0xFF == k,
        (0x3E00 | k) & 0xFF == k,
        (0x3900 | k) & 0xFF == k,
        (0x3800 | k) & 0xFF == k,
        (0x3400 | k) & 0xFF == k,
        (0x3C00 | k) & 0xFF == k,
        (0x3A00 | k) & 0xFF == k,
        ((0x3000 | k) & 0x3F00) >> 8 == 0x30 && ((0x3000 | k) & 0x3C00) >> 8 == 0x30,
        ((0x3E00 | k) & 0x3F00) >> 8 == 0x3E && ((0x3E00 | k) & 0x3C00) >> 8 == 0x3C,
        ((0x3900 | k) & 0x3F00) >> 8 == 0x39 && ((0x3900 | k) & 0x3C00) >> 8 == 0x38,
        ((0x3800 | k) & 0x3F00) >> 8 == 0x38 && ((0x3800 | k) & 0x3C00) >> 8 == 0x38,
        ((0x3400 | k) & 0x3F00) >> 8 == 0x34 && ((0x3400 | k) & 0x3C00) >> 8 == 0x34,
        ((0x3C00 | k) & 0x3F00) >> 8 == 0x3C && ((0x3C00 | k) & 0x3C00) >> 8 == 0x3C,
        ((0x3A00 | k) & 0x3F00) >> 8 == 0x3A && ((0x3A00 | k) & 0x3C00) >> 8 == 0x38,
        (0x3000 | k) & 0x3C00 == 0x3000,
        (0x3E00 | k) & 0x3C00 == 0x3C00 && (0x3E00 | k) & 0x3E00 == 0x3E00,
        (0x3900 | k) & 0x3C00 == 0x3800 && (0x3900 | k) & 0x3E00 == 0x3800 && (0x3900 | k)
            & 0x3F00 == 0x3900,
        (0x3800 | k) & 0x3C00 == 0x3800 && (0x3800 | k) & 0x3E00 == 0x3800 && (0x3800 | k)
            & 0x3F00 == 0x3800,
        (0x3400 | k) & 0x3C00 == 0x3400 && (0x3400 | k) & 0x3E00 == 0x3400 && (0x3400 | k)
            & 0x3F00 == 0x3400,
        (0x3C00 | k) & 0x3C00 == 0x3C00 && (0x3C00 | k) & 0x3E00 == 0x3C00 && (0x3C00 | k)
            & 0x3F00 == 0x3C00,
        (0x3A00 | k) & 0x3C00 == 0x3800 && (0x3A00 | k) & 0x3E00 == 0x3A00 && (0x3A00 | k)
            & 0x3F00 == 0x3A00,
{
}

/// The masked fields of a control code word that carries no operand.
proof fn lemma_fixed_control_bits(i: u16)
    by (bit_vector)
    requires
        i == 0x0064 || i == 0x0009 || i == 0x0008 || i == 0x0063 || i == 0x0000 || i == 0x0100,
    ensures
        (i & 0x3F00) >> 8 <= 1,
        (i & 0x3C00) >> 8 == 0,
        i & 0x3C00 == 0 && i & 0x3E00 == 0 && (i & 0x3F00 == 0 || i & 0x3F00 == 0x0100),
        i == 0x0000 ==> i & 0x3F9F == 0,
        i == 0x0100 ==> i & 0x3F9F != 0 && i & 0x3F80 == 0x0100,
        i & 0x3FFF == i,
{
}

proof fn lemma_branch_code_bits(a: u16)
    by (bit_vector)
    requires
        a < 0x800,
    ensures
        0x20 <= ((0x2800 | a) & 0x3F00) >> 8 <= 0x2F,
        ((0x2800 | a) & 0x3C00) >> 8 == 0x28 || ((0x2800 | a) & 0x3C00) >> 8 == 0x2C,
        (0x2800 | a) & 0x3C00 != 0x3000 && (0x2800 | a) & 0x3C00 != 0x3400,
        (0x2800 | a) & 0x3E00 != 0x3E00 && (0x2800 | a) & 0x3E00 != 0x3C00,
        (0x2800 | a) & 0x3F00 != 0x3900 && (0x2800 | a) & 0x3F00 != 0x3800 && (0x2800 | a)
            & 0x3F00 != 0x3A00,
        (0x2800 | a) & 0x3FFF >= 0x2800 && (0x2800 | a) & 0x3F9F != 0 && (0x2800 | a) & 0x3F80 != 0x0100,
        (0x2800 | a) & 0x3800 == 0x2800 && (0x2800 | a) & 0x07FF == a,
        0x20 <= ((0x2000 | a) & 0x3F00) >> 8 <= 0x27,
        ((0x2000 | a) & 0x3C00) >> 8 == 0x20 || ((0x2000 | a) & 0x3C00) >> 8 == 0x24,
        (0x2000 | a) & 0x3C00 != 0x3000 && (0x2000 | a) & 0x3C00 != 0x3400,
        (0x2000 | a) & 0x3E00 != 0x3E00 && (0x2000 | a) & 0x3E00 != 0x3C00,
        (0x2000 | a) & 0x3F00 != 0x3900 && (0x2000 | a) & 0x3F00 != 0x3800 && (0x2000 | a)
            & 0x3F00 != 0x3A00,
        (0x2000 | a) & 0x3FFF >= 0x2000 && (0x2000 | a) & 0x3F9F != 0 && (0x2000 | a) & 0x3F80 != 0x0100,
        (0x2000 | a) & 0x3800 == 0x2000 && (0x2000 | a) & 0x07FF == a,
{
}

proof fn lemma_file_control_bits(f: u16)
    by (bit_vector)
    requires
        f < 128,
    ensures
        ((0x0180 | f) & 0x3F00) >> 8 == 1 && ((0x0180 | f) & 0x3C00) >> 8 == 0,
        (0x0180 | f) & 0x3C00 == 0 && (0x0180 | f) & 0x3E00 == 0 && (0x0180 | f) & 0x3F00
            == 0x0100,
        (0x0180 | f) & 0x3FFF >= 0x0180 && (0x0180 | f) & 0x3F9F != 0,
        (0x0180 | f) & 0x3F80 == 0x0180 && (0x0180 | f) & 0x3800 == 0,
        (0x0180 | f) & 0x7F == f,
        ((0x0080 | f) & 0x3F00) >> 8 == 0 && ((0x0080 | f) & 0x3C00) >> 8 == 0,
        (0x0080 | f) & 0x3C00 == 0 && (0x0080 | f) & 0x3E00 == 0 && (0x0080 | f) & 0x3F00 == 0,
        (0x0080 | f) & 0x3FFF >= 0x0080 && (0x0080 | f) & 0x3F9F != 0,
        (0x0080 | f) & 0x3F80 == 0x0080 && (0x0080 | f) & 0x3800 == 0,
        (0x0080 | f) & 0x7F == f,
{
}

/// The all-zero code word is NOP.
pub proof fn lemma_zero_is_noop()
    ensures
        decode(0) == Some(Instruction::Control(ControlInstruction::Noop)),
{
    lemma_fixed_control_bits(0);
}

/// Decoding the code word of an instruction gives back that instruction.
pub proof fn lemma_decode_encode(inst: Instruction)
    requires
        inst.wf(),
    ensures
        decode(encode(inst)) == Some(inst),
{
    match inst {
        Instruction::ByteOriented(x) => {
            lemma_byte_code_bits(byte_opcode(x.op), dest_bit(x.dest), x.f.0 as u16);
        },
        Instruction::BitOriented(x) => {
            lemma_bit_code_bits(bit_opcode(x.op), x.b.0 as u16, x.f.0 as u16);
        },
        Instruction::LiteralOriented(x) => {
            lemma_literal_code_bits(x.k as u16);
        },
        Instruction::Control(c) => match c {
            ControlInstruction::Goto { addr } => lemma_branch_code_bits(addr.0),
            ControlInstruction::Call { addr } => lemma_branch_code_bits(addr.0),
            ControlInstruction::ClearF { f } => lemma_file_control_bits(f.0 as u16),
            ControlInstruction::MoveWtoF { f } => lemma_file_control_bits(f.0 as u16),
            _ => lemma_fixed_control_bits(encode(inst)),
        },
    }
}

} // verus!

verus! {

proof fn lemma_code_word_fields(w: u16)
    by (bit_vector)
    ensures
        w & 0x80 == 0 ==> (((w & 0x3F00) >> 8) << 8) | 0 | (w & 0x7F) == w & 0x3FFF,
        w & 0x80 != 0 ==> (((w & 0x3F00) >> 8) << 8) | 0x80 | (w & 0x7F) == w & 0x3FFF,
        (((w & 0x3C00) >> 8) << 8) | (((w & 0x0380) >> 7) << 7) | (w & 0x7F) == w & 0x3FFF,
        w & 0x3C00 == 0x3000 ==> 0x3000 | (w & 0xFF) == w & (0x3C00u16 | 0xFFu16),
        w & 0x3C00 == 0x3400 ==> 0x3400 | (w & 0xFF) == w & (0x3C00u16 | 0xFFu16),
        w & 0x3E00 == 0x3E00 ==> 0x3E00 | (w & 0xFF) == w & (0x3E00u16 | 0xFFu16),
        w & 0x3E00 == 0x3C00 ==> 0x3C00 | (w & 0xFF) == w & (0x3E00u16 | 0xFFu16),
        w & 0x3F00 == 0x3900 ==> 0x3900 | (w & 0xFF) == w & (0x3F00u16 | 0xFFu16),
        w & 0x3F00 == 0x3800 ==> 0x3800 | (w & 0xFF) == w & (0x3F00u16 | 0xFFu16),
        w & 0x3F00 == 0x3A00 ==> 0x3A00 | (w & 0xFF) == w & (0x3F00u16 | 0xFFu16),
        w & 0x3800 == 0x2800 ==> 0x2800 | (w & 0x07FF) == w & 0x3FFF,
        w & 0x3800 == 0x2000 ==> 0x2000 | (w & 0x07FF) == w & 0x3FFF,
        w & 0x3F80 == 0x0180 ==> 0x0180 | (w & 0x7F) == w & 0x3FFF,
        w & 0x3F80 == 0x0080 ==> 0x0080 | (w & 0x7F) == w & 0x3FFF,
        w == 0x0064 || w == 0x0009 || w == 0x0008 || w == 0x0063 ==> w & 0x3FFF == w,
        w & 0x3F9F == 0 ==> w & 0x3F9F == 0x0000,
{
}

/// Encoding a decoded instruction gives back the code word it came from, with
/// its don't-care bits cleared.
pub proof fn lemma_encode_decode(w: u16)
    ensures
        decode(w) matches Some(inst) ==> encode(inst) == w & care_mask(inst),
{
    lemma_code_word_fields(w);
    lemma_operand_ranges(w);
}

} // verus!

verus! {

proof fn lemma_masks_within_code_word(w: u16)
    by (bit_vector)
    ensures
        (w & 0x3FFF) & 0x3F00 == w & 0x3F00,
        (w & 0x3FFF) & 0x3E00 == w & 0x3E00,
        (w & 0x3FFF) & 0x3C00 == w & 0x3C00,
        (w & 0x3FFF) & 0x3800 == w & 0x3800,
        (w & 0x3FFF) & 0x3F9F == w & 0x3F9F,
        (w & 0x3FFF) & 0x3F80 == w & 0x3F80,
        (w & 0x3FFF) & 0x3FFF == w & 0x3FFF,
        (w & 0x3FFF) & 0x07FF == w & 0x07FF,
        (w & 0x3FFF) & 0x0380 == w & 0x0380,
        (w & 0x3FFF) & 0xFF == w & 0xFF,
        (w & 0x3FFF) & 0x80 == w & 0x80,
        (w & 0x3FFF) & 0x7F == w & 0x7F,
{
}

/// Bits 15 and 14 of a 16-bit value lie outside the 14-bit code word and do
/// not change what it decodes to.
pub proof fn lemma_decode_ignores_upper_bits(w: u16)
    ensures
        decode(w) == decode(w & 0x3FFF),
{
    lemma_masks_within_code_word(w);
}

} // verus!
