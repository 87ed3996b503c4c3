use stk_pic_vm::hex::{decode_intel_hex, Error, IntelHexDecoder};
use stk_pic_vm::inst::{
    BitIndex, BitOrientedInstruction, BitOrientedOperation, ByteOrientedInstruction,
    ByteOrientedOperation, ControlInstruction, Destination, Instruction,
    LiteralOrientedInstruction, LiteralOrientedOperation, ProgramAddr, RegisterFileAddr,
};

fn care_mask(inst: &Instruction) -> u16 {
    match inst {
        Instruction::LiteralOriented(x) => match x.op {
            LiteralOrientedOperation::MoveLiteralToW | LiteralOrientedOperation::ReturnWithLiteralInW => 0x3CFF,
            LiteralOrientedOperation::AddLiteralToW | LiteralOrientedOperation::SubtractWFromLiteral => 0x3EFF,
            _ => 0x3FFF,
        },
        Instruction::Control(ControlInstruction::Noop) => 0x3F9F,
        Instruction::Control(ControlInstruction::ClearW) => 0x3F80,
        _ => 0x3FFF,
    }
}

#[test]
fn every_code_word_round_trips() {
    let mut decoded = 0;
    for w in 0..=0xFFFFu16 {
        if let Some(inst) = Instruction::from_code(w) {
            decoded += 1;
            assert_eq!(inst.to_code(), w & care_mask(&inst), "{:#06x}", w);
            assert_eq!(Instruction::from_code(inst.to_code()), Some(inst));
        }
    }
    assert!(decoded > 0);
}

#[test]
fn every_instruction_encodes_and_decodes() {
    let byte_ops = [
        ByteOrientedOperation::AddWf,
        ByteOrientedOperation::AndWf,
        ByteOrientedOperation::ComplementF,
        ByteOrientedOperation::DecrementF,
        ByteOrientedOperation::DecrementFSkipIfZ,
        ByteOrientedOperation::IncrementF,
        ByteOrientedOperation::IncrementFSkipIfZ,
        ByteOrientedOperation::OrWf,
        ByteOrientedOperation::MoveF,
        ByteOrientedOperation::RotateLeftFThroughCarry,
        ByteOrientedOperation::RotateRightFThroughCarry,
        ByteOrientedOperation::SubtractWfromF,
        ByteOrientedOperation::SwapF,
        ByteOrientedOperation::XorWwithF,
    ];
    let mut all = Vec::new();
    for op in byte_ops {
        for f in 0..128u8 {
            for dest in [Destination::W, Destination::F] {
                all.push(Instruction::ByteOriented(ByteOrientedInstruction { op, f: RegisterFileAddr(f), dest }));
            }
        }
    }
    for op in [
        BitOrientedOperation::BitClearF,
        BitOrientedOperation::BitSetF,
        BitOrientedOperation::SkipIfFBitClear,
        BitOrientedOperation::SkipIfFBitSet,
    ] {
        for f in 0..128u8 {
            for b in 0..8u8 {
                all.push(Instruction::BitOriented(BitOrientedInstruction { op, b: BitIndex::new(b), f: RegisterFileAddr(f) }));
            }
        }
    }
    for op in [
        LiteralOrientedOperation::MoveLiteralToW,
        LiteralOrientedOperation::ReturnWithLiteralInW,
        LiteralOrientedOperation::AddLiteralToW,
        LiteralOrientedOperation::SubtractWFromLiteral,
        LiteralOrientedOperation::AndLiteralWithW,
        LiteralOrientedOperation::OrLiteralWithW,
        LiteralOrientedOperation::XorLiteralWithW,
    ] {
        for k in 0..=255u8 {
            all.push(Instruction::LiteralOriented(LiteralOrientedInstruction { op, k }));
        }
    }
    for c in [
        ControlInstruction::ClearWatchDogTimer,
        ControlInstruction::ReturnFromInterrupt,
        ControlInstruction::Return,
        ControlInstruction::Sleep,
        ControlInstruction::Noop,
        ControlInstruction::ClearW,
    ] {
        all.push(Instruction::Control(c));
    }
    for a in 0..0x800u16 {
        all.push(Instruction::Control(ControlInstruction::Goto { addr: ProgramAddr(a) }));
        all.push(Instruction::Control(ControlInstruction::Call { addr: ProgramAddr(a) }));
    }
    for f in 0..128u8 {
        all.push(Instruction::Control(ControlInstruction::ClearF { f: RegisterFileAddr(f) }));
        all.push(Instruction::Control(ControlInstruction::MoveWtoF { f: RegisterFileAddr(f) }));
    }
    for inst in all {
        assert_eq!(Instruction::from_code(inst.to_code()), Some(inst));
    }
}

#[test]
fn known_encodings() {
    assert_eq!(Instruction::Control(ControlInstruction::Return).to_code(), 0x0008);
    assert_eq!(Instruction::Control(ControlInstruction::Call { addr: ProgramAddr(0x21) }).to_code(), 0x2021);
    assert_eq!(
        Instruction::ByteOriented(ByteOrientedInstruction {
            op: ByteOrientedOperation::AddWf,
            f: RegisterFileAddr(0x55),
            dest: Destination::F
        })
        .to_code(),
        0x07D5
    );
    assert_eq!(Instruction::from_code(0x0060), Some(Instruction::Control(ControlInstruction::Noop)));
    assert_eq!(Instruction::from_code(0x017F), Some(Instruction::Control(ControlInstruction::ClearW)));
    assert_eq!(Instruction::from_code(0x0001), None);
    assert_eq!(
        Instruction::from_code(0x3100),
        Some(Instruction::LiteralOriented(LiteralOrientedInstruction { op: LiteralOrientedOperation::MoveLiteralToW, k: 0 }))
    );
}

#[test]
fn hex_places_data_at_addresses() {
    let text = ":020000040000FA\n:02000000AB12FF\r\n:00000001FF";
    let image = decode_intel_hex(text.as_bytes());
    assert_eq!(image, Ok(vec![0xAB, 0x12]));
    let text = ":01000300EEFF\n:00000001FF";
    assert_eq!(decode_intel_hex(text.as_bytes()), Ok(vec![0, 0, 0, 0xEE]));
    let decoder = IntelHexDecoder::new(b":0100000042FF\n:00000001FF".to_vec());
    assert_eq!(decoder.decode(), Ok(vec![0x42]));
}

#[test]
fn hex_upper_address_extends_image() {
    let text = ":020000040001F9\n:0100000042FF\n:00000001FF";
    let image = decode_intel_hex(text.as_bytes()).unwrap();
    assert_eq!(image.len(), 0x10001);
    assert_eq!(image[0x10000], 0x42);
    assert!(image[..0x10000].iter().all(|&b| b == 0));
}

#[test]
fn hex_errors() {
    assert_eq!(decode_intel_hex(b""), Err(Error::UnexpectedEof));
    assert_eq!(decode_intel_hex(b"x0100"), Err(Error::InvalidLineStart { found: 'x' }));
    assert_eq!(decode_intel_hex(b":0g"), Err(Error::InvalidHexChar { found: 'g' }));
    assert_eq!(decode_intel_hex(b":01000000ab"), Err(Error::InvalidHexChar { found: 'a' }));
    assert_eq!(decode_intel_hex(b":00000007FF\n"), Err(Error::UnknownRecordType { found: 7 }));
    assert_eq!(decode_intel_hex(b":00000002FF\n"), Err(Error::UnsupportedRecordType { found: 2 }));
    assert_eq!(decode_intel_hex(b":0100000042FF;"), Err(Error::InvalidNewLine { found: ';' }));
    assert_eq!(decode_intel_hex(b":0100000042FF\rx"), Err(Error::InvalidNewLine { found: 'x' }));
    assert_eq!(decode_intel_hex(b":0100000042FF\n"), Err(Error::UnexpectedEof));
    assert_eq!(decode_intel_hex(b":02000004FFFFFC\n:02FFFF0000FF\n"), Err(Error::AddressOverflow));
}

#[test]
fn upper_two_bits_are_ignored() {
    assert_eq!(Instruction::from_code(0xC008), Some(Instruction::Control(ControlInstruction::Return)));
    for w in 0..=0x3FFFu16 {
        let d = Instruction::from_code(w);
        for top in [0x4000u16, 0x8000, 0xC000] {
            assert_eq!(Instruction::from_code(w | top), d, "{:#06x}", w | top);
        }
    }
}
