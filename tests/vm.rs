use stk_pic_vm::inst::{
    BitIndex, BitOrientedInstruction, BitOrientedOperation, ByteOrientedInstruction,
    ByteOrientedOperation, ControlInstruction, Destination, Instruction,
    LiteralOrientedInstruction, LiteralOrientedOperation, ProgramAddr, RegisterFileAddr,
};
use stk_pic_vm::reg::{cell_in_bank, Cell, RegisterError, Registers, Sfr, FLAG_C, FLAG_DC, FLAG_Z};
use stk_pic_vm::vm::{CycleCounter, Ticker, VmError, FLASH_SIZE, P16F88};

struct Recorder {
    cycles: Vec<u8>,
    pcs: Vec<u16>,
}

impl Recorder {
    fn new() -> Self {
        Recorder { cycles: Vec::new(), pcs: Vec::new() }
    }
}

impl Ticker for Recorder {
    fn tick(&mut self, vm: &P16F88, cycles: u8) {
        self.cycles.push(cycles);
        self.pcs.push(vm.pc());
    }
}

fn program(insts: &[Instruction]) -> [u8; 7168] {
    let mut flash = [0u8; 7168];
    for (i, inst) in insts.iter().enumerate() {
        let code = inst.to_code();
        flash[2 * i] = (code & 0xFF) as u8;
        flash[2 * i + 1] = (code >> 8) as u8;
    }
    flash
}

fn movlw(k: u8) -> Instruction {
    Instruction::LiteralOriented(LiteralOrientedInstruction { op: LiteralOrientedOperation::MoveLiteralToW, k })
}

fn literal(op: LiteralOrientedOperation, k: u8) -> Instruction {
    Instruction::LiteralOriented(LiteralOrientedInstruction { op, k })
}

fn movwf(f: u8) -> Instruction {
    Instruction::Control(ControlInstruction::MoveWtoF { f: RegisterFileAddr(f) })
}

fn byte(op: ByteOrientedOperation, f: u8, dest: Destination) -> Instruction {
    Instruction::ByteOriented(ByteOrientedInstruction { op, f: RegisterFileAddr(f), dest })
}

fn bit(op: BitOrientedOperation, f: u8, b: u8) -> Instruction {
    Instruction::BitOriented(BitOrientedInstruction { op, b: BitIndex::new(b), f: RegisterFileAddr(f) })
}

fn control(c: ControlInstruction) -> Instruction {
    Instruction::Control(c)
}

fn run(insts: &[Instruction]) -> (P16F88, Recorder) {
    let mut vm = P16F88::new(program(insts));
    let mut ticker = Recorder::new();
    for _ in 0..insts.len() {
        vm.step(&mut ticker).unwrap();
    }
    (vm, ticker)
}

fn status(vm: &P16F88) -> u8 {
    vm.registers().status()
}

#[test]
fn reset_state() {
    let vm = P16F88::new([0u8; 7168]);
    assert_eq!(vm.pc(), 0);
    assert_eq!(vm.w(), 0);
    assert!(vm.call_stack().is_empty());
    assert_eq!(status(&vm), 0x18);
    assert_eq!(vm.registers().get(Sfr::TRISA), 0xFF);
    assert_eq!(vm.registers().get(Sfr::OPTION_REG), 0xFF);
    assert_eq!(vm.registers().get(Sfr::CMCON), 0x07);
    assert_eq!(vm.registers().pclath(), 0);
    assert_eq!(vm.registers().general(0), 0);
}

#[test]
fn xor_into_file_register() {
    let (vm, _) = run(&[
        movlw(0x55),
        movwf(0x20),
        movlw(0xAA),
        byte(ByteOrientedOperation::XorWwithF, 0x20, Destination::F),
    ]);
    assert_eq!(vm.w(), 0xAA);
    assert_eq!(vm.registers().general(0), 0xFF);
    assert_eq!(status(&vm) & FLAG_Z, 0);
}

#[test]
fn clear_w_sets_only_z() {
    let (vm, _) = run(&[movlw(0x37), control(ControlInstruction::ClearW)]);
    assert_eq!(vm.w(), 0);
    assert_eq!(status(&vm), 0x18 | FLAG_Z);
}

#[test]
fn add_literal_sets_digit_carry() {
    let (vm, _) = run(&[movlw(0x0F), literal(LiteralOrientedOperation::AddLiteralToW, 0x01)]);
    assert_eq!(vm.w(), 0x10);
    assert_ne!(status(&vm) & FLAG_DC, 0);
    assert_eq!(status(&vm) & FLAG_C, 0);
    assert_eq!(status(&vm) & FLAG_Z, 0);
}

#[test]
fn ten_noops() {
    let mut vm = P16F88::new([0u8; 7168]);
    let mut ticker = Recorder::new();
    for _ in 0..10 {
        assert_eq!(vm.step(&mut ticker), Ok(1));
    }
    assert_eq!(vm.pc(), 20);
    assert!(vm.call_stack().is_empty());
    assert_eq!(ticker.cycles, vec![1; 10]);
    assert_eq!(ticker.pcs, vec![2, 4, 6, 8, 10, 12, 14, 16, 18, 20]);
}

#[test]
fn call_pushes_return_address() {
    let (vm, ticker) = run(&[control(ControlInstruction::Call { addr: ProgramAddr(0x010) })]);
    assert_eq!(vm.call_stack(), &[0x0002]);
    assert_eq!(vm.pc(), 0x0020);
    assert_eq!(ticker.cycles, vec![2]);
}

#[test]
fn goto_takes_upper_bits_from_pclath() {
    let mut vm = P16F88::new(program(&[
        movlw(0x18),
        movwf(0x0A),
        control(ControlInstruction::Goto { addr: ProgramAddr(0x000) }),
    ]));
    let mut ticker = Recorder::new();
    for _ in 0..3 {
        vm.step(&mut ticker).unwrap();
    }
    assert_eq!(vm.registers().pclath(), 0x18);
    assert_eq!(vm.pc(), 0x3000);
    assert_eq!(vm.step(&mut ticker), Err(VmError::PcOutOfRange { pc: 0x3000 }));
    assert_eq!(ticker.cycles, vec![1, 1, 2]);
}

#[test]
fn add_wf_digit_carry() {
    let (vm, _) = run(&[
        movlw(0x01),
        movwf(0x20),
        movlw(0x0F),
        byte(ByteOrientedOperation::AddWf, 0x20, Destination::W),
    ]);
    assert_eq!(vm.w(), 0x10);
    assert_ne!(status(&vm) & FLAG_DC, 0);
    assert_eq!(status(&vm) & FLAG_C, 0);
    assert_eq!(status(&vm) & FLAG_Z, 0);
}

#[test]
fn add_wf_carry_and_zero() {
    let (vm, _) = run(&[
        movlw(0x01),
        movwf(0x20),
        movlw(0xFF),
        byte(ByteOrientedOperation::AddWf, 0x20, Destination::F),
    ]);
    assert_eq!(vm.registers().general(0), 0x00);
    assert_eq!(vm.w(), 0xFF);
    assert_ne!(status(&vm) & FLAG_C, 0);
    assert_ne!(status(&vm) & FLAG_Z, 0);
    assert_ne!(status(&vm) & FLAG_DC, 0);
    // TO and PD, and the bank bits, are untouched
    assert_eq!(status(&vm) & 0xF8, 0x18);
}

#[test]
fn rotate_and_swap_keep_z() {
    let (vm, _) = run(&[
        control(ControlInstruction::ClearW),
        movlw(0x12),
        movwf(0x20),
        byte(ByteOrientedOperation::SwapF, 0x20, Destination::W),
        byte(ByteOrientedOperation::RotateLeftFThroughCarry, 0x20, Destination::F),
    ]);
    assert_eq!(vm.w(), 0x21);
    assert_eq!(vm.registers().general(0), 0x24);
    assert_eq!(status(&vm), 0x18 | FLAG_Z);
}

#[test]
fn subtract_w_from_f_borrow_flags() {
    let (vm, _) = run(&[
        movlw(0x05),
        movwf(0x20),
        movlw(0x03),
        byte(ByteOrientedOperation::SubtractWfromF, 0x20, Destination::W),
    ]);
    assert_eq!(vm.w(), 0x02);
    assert_ne!(status(&vm) & FLAG_C, 0);
    assert_ne!(status(&vm) & FLAG_DC, 0);
    assert_eq!(status(&vm) & FLAG_Z, 0);

    let (vm, _) = run(&[
        movlw(0x03),
        movwf(0x20),
        movlw(0x05),
        byte(ByteOrientedOperation::SubtractWfromF, 0x20, Destination::W),
    ]);
    assert_eq!(vm.w(), 0xFE);
    assert_eq!(status(&vm) & FLAG_C, 0);
    assert_eq!(status(&vm) & FLAG_DC, 0);

    let (vm, _) = run(&[
        movlw(0x30),
        movwf(0x20),
        control(ControlInstruction::ClearW),
        byte(ByteOrientedOperation::SubtractWfromF, 0x20, Destination::W),
    ]);
    assert_eq!(vm.w(), 0x30);
    assert_ne!(status(&vm) & FLAG_C, 0);
    assert_ne!(status(&vm) & FLAG_DC, 0);
}

#[test]
fn subtract_w_from_literal_zero_from_result() {
    let (vm, _) = run(&[movlw(0x10), literal(LiteralOrientedOperation::SubtractWFromLiteral, 0x10)]);
    assert_eq!(vm.w(), 0);
    assert_ne!(status(&vm) & FLAG_Z, 0);
    assert_ne!(status(&vm) & FLAG_C, 0);

    let (vm, _) = run(&[control(ControlInstruction::ClearW), literal(LiteralOrientedOperation::SubtractWFromLiteral, 0x07)]);
    assert_eq!(vm.w(), 0x07);
    assert_eq!(status(&vm) & FLAG_Z, 0);
}

#[test]
fn literal_logic_sets_zero() {
    let (vm, _) = run(&[movlw(0xF0), literal(LiteralOrientedOperation::AndLiteralWithW, 0x0F)]);
    assert_eq!(vm.w(), 0);
    assert_ne!(status(&vm) & FLAG_Z, 0);
    let (vm, _) = run(&[movlw(0xF0), literal(LiteralOrientedOperation::OrLiteralWithW, 0x0F)]);
    assert_eq!(vm.w(), 0xFF);
    assert_eq!(status(&vm) & FLAG_Z, 0);
    let (vm, _) = run(&[movlw(0xFF), literal(LiteralOrientedOperation::XorLiteralWithW, 0xFF)]);
    assert_eq!(vm.w(), 0);
    assert_ne!(status(&vm) & FLAG_Z, 0);
}

#[test]
fn byte_operations_results() {
    let cases: [(ByteOrientedOperation, u8, u8, u8); 8] = [
        (ByteOrientedOperation::ComplementF, 0x0F, 0x00, 0xF0),
        (ByteOrientedOperation::DecrementF, 0x05, 0x00, 0x04),
        (ByteOrientedOperation::DecrementF, 0x00, 0x00, 0xFF),
        (ByteOrientedOperation::IncrementF, 0xFF, 0x00, 0x00),
        (ByteOrientedOperation::SwapF, 0xA5, 0x00, 0x5A),
        (ByteOrientedOperation::MoveF, 0x42, 0x00, 0x42),
        (ByteOrientedOperation::AndWf, 0x3C, 0x0F, 0x0C),
        (ByteOrientedOperation::OrWf, 0x30, 0x0F, 0x3F),
    ];
    for (op, v, w, expected) in cases {
        let (vm, _) = run(&[movlw(v), movwf(0x21), movlw(w), byte(op, 0x21, Destination::F)]);
        assert_eq!(vm.registers().general(1), expected, "{:?}", op);
        assert_eq!(vm.w(), w);
    }
}

#[test]
fn decrement_sets_zero() {
    let (vm, _) = run(&[movlw(0x01), movwf(0x20), byte(ByteOrientedOperation::DecrementF, 0x20, Destination::W)]);
    assert_eq!(vm.w(), 0);
    assert_eq!(vm.registers().general(0), 0x01);
    assert_ne!(status(&vm) & FLAG_Z, 0);
}

#[test]
fn rotates_through_carry() {
    let (vm, _) = run(&[movlw(0x81), movwf(0x20), byte(ByteOrientedOperation::RotateLeftFThroughCarry, 0x20, Destination::F)]);
    assert_eq!(vm.registers().general(0), 0x02);
    assert_ne!(status(&vm) & FLAG_C, 0);
    let (vm, _) = run(&[
        movlw(0x81),
        movwf(0x20),
        byte(ByteOrientedOperation::RotateLeftFThroughCarry, 0x20, Destination::F),
        byte(ByteOrientedOperation::RotateRightFThroughCarry, 0x20, Destination::F),
    ]);
    assert_eq!(vm.registers().general(0), 0x81);
    assert_eq!(status(&vm) & FLAG_C, 0);
}

#[test]
fn decfsz_skips_when_result_is_zero() {
    let (vm, ticker) = run(&[movlw(0x01), movwf(0x20), byte(ByteOrientedOperation::DecrementFSkipIfZ, 0x20, Destination::F)]);
    assert_eq!(vm.registers().general(0), 0);
    assert_eq!(vm.pc(), 8);
    assert_eq!(ticker.cycles, vec![1, 1, 2]);

    let (vm, ticker) = run(&[movlw(0x02), movwf(0x20), byte(ByteOrientedOperation::DecrementFSkipIfZ, 0x20, Destination::F)]);
    assert_eq!(vm.registers().general(0), 1);
    assert_eq!(vm.pc(), 6);
    assert_eq!(ticker.cycles, vec![1, 1, 1]);
}

#[test]
fn incfsz_skips_when_result_is_zero() {
    let (vm, ticker) = run(&[movlw(0xFF), movwf(0x20), byte(ByteOrientedOperation::IncrementFSkipIfZ, 0x20, Destination::W)]);
    assert_eq!(vm.w(), 0);
    assert_eq!(vm.registers().general(0), 0xFF);
    assert_eq!(vm.pc(), 8);
    assert_eq!(ticker.cycles, vec![1, 1, 2]);

    let (vm, ticker) = run(&[movlw(0xFE), movwf(0x20), byte(ByteOrientedOperation::IncrementFSkipIfZ, 0x20, Destination::W)]);
    assert_eq!(vm.w(), 0xFF);
    assert_eq!(vm.pc(), 6);
    assert_eq!(ticker.cycles, vec![1, 1, 1]);
}

#[test]
fn bit_skips_on_every_position() {
    for b in 0..8u8 {
        let value = 1u8 << b;
        let (vm, ticker) = run(&[movlw(value), movwf(0x20), bit(BitOrientedOperation::SkipIfFBitSet, 0x20, b)]);
        assert_eq!(vm.pc(), 8);
        assert_eq!(ticker.cycles[2], 2);
        let (vm, ticker) = run(&[movlw(!value), movwf(0x20), bit(BitOrientedOperation::SkipIfFBitSet, 0x20, b)]);
        assert_eq!(vm.pc(), 6);
        assert_eq!(ticker.cycles[2], 1);
        let (vm, ticker) = run(&[movlw(!value), movwf(0x20), bit(BitOrientedOperation::SkipIfFBitClear, 0x20, b)]);
        assert_eq!(vm.pc(), 8);
        assert_eq!(ticker.cycles[2], 2);
        let (vm, ticker) = run(&[movlw(value), movwf(0x20), bit(BitOrientedOperation::SkipIfFBitClear, 0x20, b)]);
        assert_eq!(vm.pc(), 6);
        assert_eq!(ticker.cycles[2], 1);
    }
}

#[test]
fn bit_set_and_clear() {
    let (vm, _) = run(&[
        bit(BitOrientedOperation::BitSetF, 0x20, 7),
        bit(BitOrientedOperation::BitSetF, 0x20, 0),
        bit(BitOrientedOperation::BitClearF, 0x20, 7),
    ]);
    assert_eq!(vm.registers().general(0), 0x01);
}

#[test]
fn call_then_return() {
    let mut insts = vec![control(ControlInstruction::Call { addr: ProgramAddr(3) })];
    insts.push(control(ControlInstruction::Noop));
    insts.push(control(ControlInstruction::Noop));
    insts.push(control(ControlInstruction::Return));
    let mut vm = P16F88::new(program(&insts));
    let mut ticker = Recorder::new();
    assert_eq!(vm.step(&mut ticker), Ok(2));
    assert_eq!(vm.pc(), 6);
    assert_eq!(vm.step(&mut ticker), Ok(2));
    assert_eq!(vm.pc(), 2);
    assert!(vm.call_stack().is_empty());
}

#[test]
fn return_with_literal() {
    let insts = [
        control(ControlInstruction::Call { addr: ProgramAddr(2) }),
        control(ControlInstruction::Noop),
        literal(LiteralOrientedOperation::ReturnWithLiteralInW, 0x5A),
    ];
    let mut vm = P16F88::new(program(&insts));
    let mut ticker = Recorder::new();
    vm.step(&mut ticker).unwrap();
    assert_eq!(vm.step(&mut ticker), Ok(2));
    assert_eq!(vm.w(), 0x5A);
    assert_eq!(vm.pc(), 2);
}

#[test]
fn eight_nested_calls_then_overflow() {
    let mut vm = P16F88::new([0u8; 7168]);
    for depth in 1..=8u16 {
        assert_eq!(vm.exec(control(ControlInstruction::Call { addr: ProgramAddr(depth) })), Ok(2));
        assert_eq!(vm.call_stack().len(), depth as usize);
    }
    let before_pc = vm.pc();
    assert_eq!(
        vm.exec(control(ControlInstruction::Call { addr: ProgramAddr(0x100) })),
        Err(VmError::StackOverflow { pc: before_pc })
    );
    assert_eq!(vm.call_stack().len(), 8);
    assert_eq!(vm.call_stack(), &[2, 4, 6, 8, 10, 12, 14, 16]);
}

#[test]
fn return_on_empty_stack_is_fatal() {
    let mut vm = P16F88::new([0u8; 7168]);
    assert_eq!(vm.exec(control(ControlInstruction::Return)), Err(VmError::StackUnderflow { pc: 0 }));
    assert_eq!(
        vm.exec(literal(LiteralOrientedOperation::ReturnWithLiteralInW, 9)),
        Err(VmError::StackUnderflow { pc: 0 })
    );
    assert_eq!(vm.w(), 0);
}

#[test]
fn unimplemented_instructions_are_fatal() {
    for c in [ControlInstruction::Sleep, ControlInstruction::ClearWatchDogTimer, ControlInstruction::ReturnFromInterrupt] {
        let mut vm = P16F88::new([0u8; 7168]);
        assert_eq!(vm.exec(control(c)), Err(VmError::Unimplemented { inst: c, pc: 0 }));
    }
}

#[test]
fn decode_failure_is_reported() {
    let mut flash = [0u8; 7168];
    flash[0] = 0x01;
    let mut vm = P16F88::new(flash);
    let mut ticker = Recorder::new();
    assert_eq!(vm.step(&mut ticker), Err(VmError::DecodeFailure { word: 0x0001, pc: 0 }));
    assert!(ticker.cycles.is_empty());
}

#[test]
fn pc_past_program_memory_is_fatal() {
    let mut vm = P16F88::new([0u8; 7168]);
    vm.exec(control(ControlInstruction::Goto { addr: ProgramAddr(0x7FF) })).unwrap();
    assert_eq!(vm.pc(), 0x0FFE);
    let mut flash = [0u8; 7168];
    // GOTO 0x7FF with PCLATH<4:3> = 01 lands at word 0xFFF, byte 0x1FFE.
    let insts = [movlw(0x08), movwf(0x0A), control(ControlInstruction::Goto { addr: ProgramAddr(0x7FF) })];
    flash[..6].copy_from_slice(&program(&insts)[..6]);
    let mut vm = P16F88::new(flash);
    let mut ticker = Recorder::new();
    for _ in 0..3 {
        vm.step(&mut ticker).unwrap();
    }
    assert_eq!(vm.pc(), 0x1FFE);
    assert!(0x1FFE >= FLASH_SIZE);
    assert_eq!(vm.step(&mut ticker), Err(VmError::PcOutOfRange { pc: 0x1FFE }));
}

#[test]
fn write_to_unimplemented_cell_is_fatal() {
    let mut vm = P16F88::new([0u8; 7168]);
    assert_eq!(vm.exec(movwf(0x07)), Err(VmError::ReservedWrite { addr: 0x07, bank: 0, pc: 0 }));
    assert_eq!(
        vm.exec(control(ControlInstruction::ClearF { f: RegisterFileAddr(0x00) })),
        Err(VmError::ReservedWrite { addr: 0x00, bank: 0, pc: 0 })
    );
    assert_eq!(vm.pc(), 0);
    // reading it gives zero
    assert_eq!(vm.exec(byte(ByteOrientedOperation::MoveF, 0x07, Destination::W)), Ok(1));
    assert_eq!(vm.w(), 0);
    assert_ne!(status(&vm) & FLAG_Z, 0);
}

#[test]
fn bank_selection_through_status() {
    // bank 1: 0x05 is TRISA, 0x20 is general-purpose register 96
    let (vm, _) = run(&[
        bit(BitOrientedOperation::BitSetF, 0x03, 5),
        byte(ByteOrientedOperation::MoveF, 0x05, Destination::W),
        movlw(0x77),
        movwf(0x20),
    ]);
    assert_eq!(vm.registers().bank(), 1);
    assert_eq!(vm.registers().general(96), 0x77);
    assert_eq!(vm.registers().general(0), 0x00);
    assert_eq!(vm.registers().porta(), 0x00);
    // bank 3: 0x10 is general-purpose register 272, 0x0E is reserved
    let mut vm = P16F88::new(program(&[
        bit(BitOrientedOperation::BitSetF, 0x03, 5),
        bit(BitOrientedOperation::BitSetF, 0x03, 6),
        movlw(0x99),
        movwf(0x10),
        movwf(0x0E),
    ]));
    let mut ticker = Recorder::new();
    for _ in 0..4 {
        vm.step(&mut ticker).unwrap();
    }
    assert_eq!(vm.registers().general(272), 0x99);
    assert_eq!(vm.step(&mut ticker), Err(VmError::ReservedWrite { addr: 0x0E, bank: 3, pc: 8 }));
}

#[test]
fn common_window_shared_by_all_banks() {
    let mut insts = vec![movlw(0xA5), movwf(0x75)];
    for b in [0x20u8, 0x40, 0x60] {
        insts.push(movlw(0x18 | b));
        insts.push(movwf(0x03));
        insts.push(byte(ByteOrientedOperation::MoveF, 0x75, Destination::W));
        insts.push(movwf(0x76));
    }
    let (vm, _) = run(&insts);
    assert_eq!(vm.registers().bank(), 3);
    assert_eq!(vm.registers().general(85), 0xA5);
    assert_eq!(vm.registers().general(86), 0xA5);
    assert_eq!(vm.w(), 0xA5);
}

#[test]
fn register_resolution_table() {
    assert_eq!(cell_in_bank(0, 0x03), Cell::Special(Sfr::STATUS));
    assert_eq!(cell_in_bank(3, 0x03), Cell::Special(Sfr::STATUS));
    assert_eq!(cell_in_bank(2, 0x02), Cell::Special(Sfr::PCL));
    assert_eq!(cell_in_bank(1, 0x0A), Cell::Special(Sfr::PCLATH));
    assert_eq!(cell_in_bank(0, 0x05), Cell::Special(Sfr::PORTA));
    assert_eq!(cell_in_bank(1, 0x05), Cell::Special(Sfr::TRISA));
    assert_eq!(cell_in_bank(2, 0x06), Cell::Special(Sfr::PORTB));
    assert_eq!(cell_in_bank(3, 0x06), Cell::Special(Sfr::TRISB));
    assert_eq!(cell_in_bank(1, 0x01), Cell::Special(Sfr::OPTION_REG));
    assert_eq!(cell_in_bank(0, 0x00), Cell::Indirect);
    assert_eq!(cell_in_bank(3, 0x0F), Cell::Reserved);
    assert_eq!(cell_in_bank(0, 0x1B), Cell::Unimplemented);
    assert_eq!(cell_in_bank(0, 0x20), Cell::General(0));
    assert_eq!(cell_in_bank(1, 0x6F), Cell::General(175));
    assert_eq!(cell_in_bank(2, 0x10), Cell::General(176));
    assert_eq!(cell_in_bank(3, 0x6F), Cell::General(367));
    for bank in 0..4u8 {
        for addr in 0x70..=0x7Fu8 {
            assert_eq!(cell_in_bank(bank, addr), Cell::General(80 + (addr - 0x70) as usize));
        }
    }
}

#[test]
fn register_file_refuses_reserved_write() {
    let mut regs = Registers::new();
    assert_eq!(regs.write(RegisterFileAddr(0x07), 1), Err(RegisterError::ReservedWrite { addr: 0x07, bank: 0 }));
    assert_eq!(regs.read(RegisterFileAddr(0x07)), 0);
    assert_eq!(regs.write(RegisterFileAddr(0x7F), 0x12), Ok(()));
    regs.set(Sfr::STATUS, 0x18 | 0x60);
    assert_eq!(regs.bank(), 3);
    assert_eq!(regs.read(RegisterFileAddr(0x7F)), 0x12);
    assert_eq!(regs.resolve(RegisterFileAddr(0x0E)), Cell::Reserved);
}

#[test]
fn cycle_counter_sums_cycles() {
    let mut vm = P16F88::new(program(&[
        control(ControlInstruction::Noop),
        control(ControlInstruction::Goto { addr: ProgramAddr(3) }),
        control(ControlInstruction::Noop),
        control(ControlInstruction::Noop),
    ]));
    let mut counter = CycleCounter::new();
    for _ in 0..3 {
        vm.step(&mut counter).unwrap();
    }
    assert_eq!(counter.cycles(), 4);
    let mut fresh = P16F88::new([0u8; 7168]);
    assert_eq!(fresh.exec(control(ControlInstruction::Return)), Err(VmError::StackUnderflow { pc: 0 }));
    assert_eq!(counter.cycles(), 4);
}

#[test]
fn faults_do_not_tick() {
    let mut flash = [0u8; 7168];
    flash[0] = 0x08;
    let mut vm = P16F88::new(flash);
    let mut ticker = Recorder::new();
    assert_eq!(vm.step(&mut ticker), Err(VmError::StackUnderflow { pc: 0 }));
    flash[0] = 0x63;
    let mut vm = P16F88::new(flash);
    assert_eq!(
        vm.step(&mut ticker),
        Err(VmError::Unimplemented { inst: ControlInstruction::Sleep, pc: 0 })
    );
    assert!(ticker.cycles.is_empty());
}
