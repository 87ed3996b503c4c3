//! The execution engine: fetch, decode, execute, and the ticker that observes
//! each retired instruction.
//!
//! PCL is a plain register here: a write to it stores the value and does not
//! move the program counter. Interrupts, the watchdog and sleep are not
//! simulated; CLRWDT, RETFIE and SLEEP halt with `VmError::Unimplemented`.
use vstd::prelude::*;

use crate::alu::{byte_alu, byte_operation, flag_set, literal_alu, literal_operation, set_flag, skips_on_zero};
use crate::inst::{
    decode, BitIndex, BitOrientedInstruction, BitOrientedOperation, ByteOrientedInstruction,
    ByteOrientedOperation,
    ControlInstruction, Destination, Instruction, LiteralOrientedInstruction,
    LiteralOrientedOperation, ProgramAddr, RegisterFileAddr,
};
use crate::reg::{is_writable, writable, RegisterFileView, Registers, Sfr, FLAG_Z};
use crate::stack::{CallStack, STACK_DEPTH};

verus! {

/// Size of program memory in bytes: two bytes per 14-bit word.
pub const FLASH_SIZE: usize = 7168;

/// The observable state of the processor.
pub struct CpuState {
    pub w: u8,
    /// Byte offset of the next instruction in program memory.
    pub pc: u16,
    /// Return addresses, bottom first.
    pub stack: Seq<u16>,
    pub regs: RegisterFileView,
}

/// A fault that halts execution.
#[derive(Debug, Clone, Copy, PartialEq, Eq, Structural)]
pub enum VmError {
    /// The program counter does not point into program memory.
    PcOutOfRange { pc: u16 },
    /// No instruction pattern matches the code word.
    DecodeFailure { word: u16, pc: u16 },
    /// CALL with all eight stack levels in use.
    StackOverflow { pc: u16 },
    /// RETURN or RETLW with an empty stack.
    StackUnderflow { pc: u16 },
    /// A write to a cell with no register behind it.
    ReservedWrite { addr: u8, bank: u8, pc: u16 },
    /// CLRWDT, RETFIE or SLEEP, which are not simulated.
    Unimplemented { inst: ControlInstruction, pc: u16 },
}

/// Whether an instruction can be fetched at byte offset `pc`.
pub open spec fn in_program(pc: u16) -> bool {
    pc + 1 < FLASH_SIZE
}

/// The program counter after an instruction that skips the next one or not.
pub open spec fn next_pc(pc: u16, skip: bool) -> u16 {
    if skip {
        (pc + 4) as u16
    } else {
        (pc + 2) as u16
    }
}

/// Cycles taken by an instruction that skips the next one or not.
pub open spec fn cycles(skip: bool) -> u8 {
    if skip {
        2
    } else {
        1
    }
}

/// The byte offset that GOTO or CALL jumps to: the 11-bit word address
/// `addr`, with PCLATH<4:3> supplying bits 12 and 11 of the word address.
pub open spec fn branch_target(addr: u16, pclath: u8) -> u16 {
    ((addr * 2) as u16) | (((pclath & 0x18) as u16) << 9u16)
}

/// The code word at byte offset `pc`: low byte first.
pub open spec fn fetch(program: Seq<u8>, pc: u16) -> u16 {
    (program[pc + 1] * 256 + program[pc as int]) as u16
}

pub open spec fn exec_byte_oriented(s: CpuState, x: ByteOrientedInstruction) -> Result<(CpuState, u8), VmError> {
    let bank = s.regs.bank();
    let f = x.f.0;
    if x.dest == Destination::F && !writable(bank, f) {
        Err(VmError::ReservedWrite { addr: f, bank, pc: s.pc })
    } else {
        let (res, st) = byte_alu(x.op, s.w, s.regs.read(bank, f), s.regs.status());
        let regs = s.regs.with_special(Sfr::STATUS, st);
        let skip = skips_on_zero(x.op) && res == 0;
        let pc = next_pc(s.pc, skip);
        match x.dest {
            Destination::W => Ok((CpuState { w: res, pc, stack: s.stack, regs }, cycles(skip))),
            Destination::F => Ok(
                (CpuState { w: s.w, pc, stack: s.stack, regs: regs.write(bank, f, res) }, cycles(skip)),
            ),
        }
    }
}

pub open spec fn exec_bit_oriented(s: CpuState, x: BitOrientedInstruction) -> Result<(CpuState, u8), VmError> {
    let bank = s.regs.bank();
    let f = x.f.0;
    let v = s.regs.read(bank, f);
    let mask = 1u8 << x.b.0;
    match x.op {
        BitOrientedOperation::BitClearF => if !writable(bank, f) {
            Err(VmError::ReservedWrite { addr: f, bank, pc: s.pc })
        } else {
            Ok((CpuState { pc: next_pc(s.pc, false), regs: s.regs.write(bank, f, v & !mask), ..s }, 1))
        },
        BitOrientedOperation::BitSetF => if !writable(bank, f) {
            Err(VmError::ReservedWrite { addr: f, bank, pc: s.pc })
        } else {
            Ok((CpuState { pc: next_pc(s.pc, false), regs: s.regs.write(bank, f, v | mask), ..s }, 1))
        },
        BitOrientedOperation::SkipIfFBitClear => {
            let skip = v & mask == 0;
            Ok((CpuState { pc: next_pc(s.pc, skip), ..s }, cycles(skip)))
        },
        BitOrientedOperation::SkipIfFBitSet => {
            let skip = v & mask != 0;
            Ok((CpuState { pc: next_pc(s.pc, skip), ..s }, cycles(skip)))
        },
    }
}

/// Return to the address on top of the stack.
pub open spec fn exec_return(s: CpuState) -> Result<(CpuState, u8), VmError> {
    if s.stack.len() == 0 {
        Err(VmError::StackUnderflow { pc: s.pc })
    } else {
        Ok((CpuState { pc: s.stack.last(), stack: s.stack.drop_last(), ..s }, 2))
    }
}

pub open spec fn exec_literal_oriented(s: CpuState, x: LiteralOrientedInstruction) -> Result<(CpuState, u8), VmError> {
    match x.op {
        LiteralOrientedOperation::ReturnWithLiteralInW => exec_return(CpuState { w: x.k, ..s }),
        _ => {
            let (w, st) = literal_alu(x.op, s.w, x.k, s.regs.status());
            Ok(
                (
                    CpuState {
                        w,
                        pc: next_pc(s.pc, false),
                        stack: s.stack,
                        regs: s.regs.with_special(Sfr::STATUS, st),
                    },
                    1,
                ),
            )
        },
    }
}

pub open spec fn exec_control(s: CpuState, c: ControlInstruction) -> Result<(CpuState, u8), VmError> {
    let bank = s.regs.bank();
    match c {
        ControlInstruction::Noop => Ok((CpuState { pc: next_pc(s.pc, false), ..s }, 1)),
        ControlInstruction::ClearW => Ok(
            (
                CpuState {
                    w: 0,
                    pc: next_pc(s.pc, false),
                    regs: s.regs.with_special(Sfr::STATUS, flag_set(s.regs.status(), FLAG_Z, true)),
                    ..s
                },
                1,
            ),
        ),
        ControlInstruction::ClearF { f } => if !writable(bank, f.0) {
            Err(VmError::ReservedWrite { addr: f.0, bank, pc: s.pc })
        } else {
            let regs = s.regs.write(bank, f.0, 0);
            Ok(
                (
                    CpuState {
                        pc: next_pc(s.pc, false),
                        regs: regs.with_special(Sfr::STATUS, flag_set(regs.status(), FLAG_Z, true)),
                        ..s
                    },
                    1,
                ),
            )
        },
        ControlInstruction::MoveWtoF { f } => if !writable(bank, f.0) {
            Err(VmError::ReservedWrite { addr: f.0, bank, pc: s.pc })
        } else {
            Ok((CpuState { pc: next_pc(s.pc, false), regs: s.regs.write(bank, f.0, s.w), ..s }, 1))
        },
        ControlInstruction::Goto { addr } => Ok(
            (CpuState { pc: branch_target(addr.0, s.regs.special(Sfr::PCLATH)), ..s }, 2),
        ),
        ControlInstruction::Call { addr } => if s.stack.len() >= STACK_DEPTH {
            Err(VmError::StackOverflow { pc: s.pc })
        } else {
            Ok(
                (
                    CpuState {
                        pc: branch_target(addr.0, s.regs.special(Sfr::PCLATH)),
                        stack: s.stack.push((s.pc + 2) as u16),
                        ..s
                    },
                    2,
                ),
            )
        },
        ControlInstruction::Return => exec_return(s),
        _ => Err(VmError::Unimplemented { inst: c, pc: s.pc }),
    }
}

/// The state after executing `inst` from `s` and the cycles it took, or the
/// fault that halts execution.
pub open spec fn exec_spec(s: CpuState, inst: Instruction) -> Result<(CpuState, u8), VmError> {
    if !in_program(s.pc) {
        Err(VmError::PcOutOfRange { pc: s.pc })
    } else {
        match inst {
            Instruction::ByteOriented(x) => exec_byte_oriented(s, x),
            Instruction::BitOriented(x) => exec_bit_oriented(s, x),
            Instruction::LiteralOriented(x) => exec_literal_oriented(s, x),
            Instruction::Control(c) => exec_control(s, c),
        }
    }
}

/// Fetch, decode and execute the instruction at the program counter.
pub open spec fn step_spec(s: CpuState, program: Seq<u8>) -> Result<(CpuState, u8), VmError> {
    if !in_program(s.pc) {
        Err(VmError::PcOutOfRange { pc: s.pc })
    } else {
        match decode(fetch(program, s.pc)) {
            Some(inst) => exec_spec(s, inst),
            None => Err(VmError::DecodeFailure { word: fetch(program, s.pc), pc: s.pc }),
        }
    }
}

/// `after` and the result `r` are what `expected` prescribes: the new state
/// and the cycles taken, or the fault with the state unchanged.
pub open spec fn follows(
    before: CpuState,
    after: CpuState,
    r: Result<u8, VmError>,
    expected: Result<(CpuState, u8), VmError>,
) -> bool {
    match expected {
        Ok((s, c)) => r == Ok::<u8, VmError>(c) && after == s,
        Err(e) => r == Err::<u8, VmError>(e) && after == before,
    }
}

} // verus!

verus! {

/// Observes the processor once per retired instruction.
pub trait Ticker {
    /// The observations so far, oldest first: the state of the processor
    /// after each retired instruction, with the cycles that instruction took.
    /// A ticker that keeps no record leaves it empty.
    closed spec fn ticks(&self) -> Seq<(CpuState, u8)> {
        Seq::empty()
    }

    /// Called after an instruction has updated the processor, with the cycles
    /// it took (1 or 2).
    fn tick(&mut self, vm: &P16F88, cycles: u8)
        requires
            vm.wf(),
        ensures
            final(self).ticks() == old(self).ticks().push((vm@, cycles)),
    ;
}

/// Counts the cycles that the processor has run, saturating at `u64::MAX`.
pub struct CycleCounter {
    cycles: u64,
    log: Ghost<Seq<(CpuState, u8)>>,
}

impl CycleCounter {
    /// The cycles counted so far.
    pub closed spec fn total(&self) -> u64 {
        self.cycles
    }

    pub fn new() -> (r: Self)
        ensures
            r.total() == 0,
            r.ticks() == Seq::<(CpuState, u8)>::empty(),
    {
        CycleCounter { cycles: 0, log: Ghost(Seq::empty()) }
    }

    pub fn cycles(&self) -> (r: u64)
        ensures
            r == self.total(),
    {
        self.cycles
    }
}

impl Ticker for CycleCounter {
    closed spec fn ticks(&self) -> Seq<(CpuState, u8)> {
        self.log@
    }

    fn tick(&mut self, vm: &P16F88, cycles: u8)
        ensures
            final(self).total() == if old(self).total() + cycles > u64::MAX {
                u64::MAX as int
            } else {
                old(self).total() + cycles
            },
    {
        self.cycles = self.cycles.saturating_add(cycles as u64);
        self.log = Ghost(self.log@.push((vm@, cycles)));
    }
}

proof fn lemma_branch_target_even(addr: u16, pclath: u8)
    by (bit_vector)
    requires
        addr < 0x800,
    ensures
        (((addr * 2) as u16) | (((pclath & 0x18) as u16) << 9u16)) % 2 == 0,
{
}

/// A PIC16F88 running the program in its flash memory.
pub struct P16F88 {
    w: u8,
    pc: u16,
    flash: [u8; 7168],
    call_stack: CallStack,
    register: Registers,
}

impl View for P16F88 {
    type V = CpuState;

    closed spec fn view(&self) -> CpuState {
        CpuState { w: self.w, pc: self.pc, stack: self.call_stack@, regs: self.register@ }
    }
}

impl P16F88 {
    /// The contents of program memory.
    pub closed spec fn program(&self) -> Seq<u8> {
        self.flash@
    }

    /// The register file holds every register, the stack is within its
    /// depth, and every address the program counter or the stack holds is
    /// even.
    pub open spec fn wf(&self) -> bool {
        &&& self@.regs.wf()
        &&& self@.stack.len() <= STACK_DEPTH
        &&& self@.pc % 2 == 0
        &&& forall|i: int| 0 <= i < self@.stack.len() ==> #[trigger] self@.stack[i] % 2 == 0
    }

    /// A processor just out of reset: W and the program counter zero, the
    /// stack empty, every register at its reset value.
    pub fn new(flash: [u8; 7168]) -> (r: Self)
        ensures
            r.wf(),
            r.program() == flash@,
            r@.w == 0,
            r@.pc == 0,
            r@.stack == Seq::<u16>::empty(),
            r@.regs.is_reset(),
    {
        P16F88 { w: 0, pc: 0, flash, call_stack: CallStack::new(), register: Registers::new() }
    }

    pub fn pc(&self) -> (r: u16)
        ensures
            r == self@.pc,
    {
        self.pc
    }

    pub fn w(&self) -> (r: u8)
        ensures
            r == self@.w,
    {
        self.w
    }

    pub fn registers(&self) -> (r: &Registers)
        requires
            self.wf(),
        ensures
            r@ == self@.regs,
            r.wf(),
    {
        &self.register
    }

    /// The return addresses on the stack, bottom first.
    pub fn call_stack(&self) -> (r: &[u16])
        ensures
            r@ == self@.stack,
    {
        self.call_stack.as_slice()
    }

    /// Fetches, decodes and executes one instruction, then tells `ticker`
    /// the new state and the cycles it took, once. On a fault nothing changes
    /// and `ticker` is not called.
    pub fn step<T: Ticker>(&mut self, ticker: &mut T) -> (r: Result<u8, VmError>)
        requires
            old(self).wf(),
        ensures
            final(self).wf(),
            final(self).program() == old(self).program(),
            follows(old(self)@, final(self)@, r, step_spec(old(self)@, old(self).program())),
            r matches Ok(c) ==> final(ticker).ticks() == old(ticker).ticks().push((final(self)@, c)),
            r is Err ==> final(ticker).ticks() == old(ticker).ticks(),
    {
        if self.pc as usize + 1 >= FLASH_SIZE {
            return Err(VmError::PcOutOfRange { pc: self.pc });
        }
        let low = self.flash[self.pc as usize];
        let high = self.flash[self.pc as usize + 1];
        let word = high as u16 * 256 + low as u16;
        match Instruction::from_code(word) {
            Some(inst) => {
                let r = self.exec(inst);
                if let Ok(cycles) = r {
                    ticker.tick(&*self, cycles);
                }
                r
            },
            None => Err(VmError::DecodeFailure { word, pc: self.pc }),
        }
    }

    /// Executes `inst` at the current program counter and returns the cycles
    /// it took. On a fault nothing changes.
    pub fn exec(&mut self, inst: Instruction) -> (r: Result<u8, VmError>)
        requires
            old(self).wf(),
            inst.wf(),
        ensures
            final(self).wf(),
            final(self).program() == old(self).program(),
            follows(old(self)@, final(self)@, r, exec_spec(old(self)@, inst)),
    {
        if self.pc as usize + 1 >= FLASH_SIZE {
            return Err(VmError::PcOutOfRange { pc: self.pc });
        }
        match inst {
            Instruction::ByteOriented(x) => self.exec_byte_oriented(x),
            Instruction::BitOriented(x) => self.exec_bit_oriented(x),
            Instruction::LiteralOriented(x) => self.exec_literal_oriented(x),
            Instruction::Control(c) => self.exec_control(c),
        }
    }

    fn exec_byte_oriented(&mut self, x: ByteOrientedInstruction) -> (r: Result<u8, VmError>)
        requires
            old(self).wf(),
            in_program(old(self)@.pc),
            x.f.0 < 0x80,
        ensures
            final(self).wf(),
            final(self).program() == old(self).program(),
            follows(old(self)@, final(self)@, r, exec_byte_oriented(old(self)@, x)),
    {
        let bank = self.register.bank();
        let f = x.f.0;
        if x.dest == Destination::F && !is_writable(bank, f) {
            return Err(VmError::ReservedWrite { addr: f, bank, pc: self.pc });
        }
        let v = self.register.read_in_bank(bank, f);
        let (res, st) = byte_operation(x.op, self.w, v, self.register.status());
        self.register.set(Sfr::STATUS, st);
        match x.dest {
            Destination::W => {
                self.w = res;
            },
            Destination::F => {
                let _ = self.register.write_in_bank(bank, f, res);
            },
        }
        let skip = (x.op == ByteOrientedOperation::DecrementFSkipIfZ
            || x.op == ByteOrientedOperation::IncrementFSkipIfZ) && res == 0;
        if skip {
            self.pc = self.pc + 4;
            Ok(2)
        } else {
            self.pc = self.pc + 2;
            Ok(1)
        }
    }

    fn exec_bit_oriented(&mut self, x: BitOrientedInstruction) -> (r: Result<u8, VmError>)
        requires
            old(self).wf(),
            in_program(old(self)@.pc),
            x.f.0 < 0x80,
            x.b.0 < 8,
        ensures
            final(self).wf(),
            final(self).program() == old(self).program(),
            follows(old(self)@, final(self)@, r, exec_bit_oriented(old(self)@, x)),
    {
        let bank = self.register.bank();
        let f = x.f.0;
        let v = self.register.read_in_bank(bank, f);
        let mask: u8 = 1u8 << x.b.0;
        match x.op {
            BitOrientedOperation::BitClearF | BitOrientedOperation::BitSetF => {
                if !is_writable(bank, f) {
                    return Err(VmError::ReservedWrite { addr: f, bank, pc: self.pc });
                }
                let new_value = if x.op == BitOrientedOperation::BitClearF {
                    v & !mask
                } else {
                    v | mask
                };
                let _ = self.register.write_in_bank(bank, f, new_value);
                self.pc = self.pc + 2;
                Ok(1)
            },
            BitOrientedOperation::SkipIfFBitClear | BitOrientedOperation::SkipIfFBitSet => {
                let bit_set = v & mask != 0;
                let skip = if x.op == BitOrientedOperation::SkipIfFBitSet {
                    bit_set
                } else {
                    !bit_set
                };
                if skip {
                    self.pc = self.pc + 4;
                    Ok(2)
                } else {
                    self.pc = self.pc + 2;
                    Ok(1)
                }
            },
        }
    }

    fn exec_return(&mut self) -> (r: Result<u8, VmError>)
        requires
            old(self).wf(),
        ensures
            final(self).wf(),
            final(self).program() == old(self).program(),
            follows(old(self)@, final(self)@, r, exec_return(old(self)@)),
    {
        match self.call_stack.pop() {
            Some(addr) => {
                self.pc = addr;
                Ok(2)
            },
            None => Err(VmError::StackUnderflow { pc: self.pc }),
        }
    }

    fn exec_literal_oriented(&mut self, x: LiteralOrientedInstruction) -> (r: Result<u8, VmError>)
        requires
            old(self).wf(),
            in_program(old(self)@.pc),
        ensures
            final(self).wf(),
            final(self).program() == old(self).program(),
            follows(old(self)@, final(self)@, r, exec_literal_oriented(old(self)@, x)),
    {
        if x.op == LiteralOrientedOperation::ReturnWithLiteralInW {
            if self.call_stack.len() == 0 {
                return Err(VmError::StackUnderflow { pc: self.pc });
            }
            self.w = x.k;
            return self.exec_return();
        }
        let (w, st) = literal_operation(x.op, self.w, x.k, self.register.status());
        self.w = w;
        self.register.set(Sfr::STATUS, st);
        self.pc = self.pc + 2;
        Ok(1)
    }

    fn exec_control(&mut self, c: ControlInstruction) -> (r: Result<u8, VmError>)
        requires
            old(self).wf(),
            in_program(old(self)@.pc),
            Instruction::Control(c).wf(),
        ensures
            final(self).wf(),
            final(self).program() == old(self).program(),
            follows(old(self)@, final(self)@, r, exec_control(old(self)@, c)),
    {
        let bank = self.register.bank();
        match c {
            ControlInstruction::Noop => {
                self.pc = self.pc + 2;
                Ok(1)
            },
            ControlInstruction::ClearW => {
                self.w = 0;
                let st = set_flag(self.register.status(), FLAG_Z, true);
                self.register.set(Sfr::STATUS, st);
                self.pc = self.pc + 2;
                Ok(1)
            },
            ControlInstruction::ClearF { f } => {
                if !is_writable(bank, f.0) {
                    return Err(VmError::ReservedWrite { addr: f.0, bank, pc: self.pc });
                }
                let _ = self.register.write_in_bank(bank, f.0, 0);
                let st = set_flag(self.register.status(), FLAG_Z, true);
                self.register.set(Sfr::STATUS, st);
                self.pc = self.pc + 2;
                Ok(1)
            },
            ControlInstruction::MoveWtoF { f } => {
                if !is_writable(bank, f.0) {
                    return Err(VmError::ReservedWrite { addr: f.0, bank, pc: self.pc });
                }
                let _ = self.register.write_in_bank(bank, f.0, self.w);
                self.pc = self.pc + 2;
                Ok(1)
            },
            ControlInstruction::Goto { addr } => {
                self.pc = self.branch_target(addr.0);
                Ok(2)
            },
            ControlInstruction::Call { addr } => {
                if !self.call_stack.try_push(self.pc + 2) {
                    return Err(VmError::StackOverflow { pc: self.pc });
                }
                self.pc = self.branch_target(addr.0);
                Ok(2)
            },
            ControlInstruction::Return => self.exec_return(),
            _ => Err(VmError::Unimplemented { inst: c, pc: self.pc }),
        }
    }

    fn branch_target(&self, addr: u16) -> (r: u16)
        requires
            self.wf(),
            addr < 0x800,
        ensures
            r == branch_target(addr, self@.regs.special(Sfr::PCLATH)),
            r % 2 == 0,
    {
        proof {
            lemma_branch_target_even(addr, self@.regs.special(Sfr::PCLATH));
        }
        (addr * 2) | (((self.register.pclath() & 0x18) as u16) << 9u16)
    }
}

} // verus!

verus! {

/// CLRW from any state with the program counter in program memory clears W,
/// sets Z, keeps every other STATUS bit and register, and moves to the next
/// instruction in one cycle. With the program counter outside program memory
/// no instruction runs: the step faults with `PcOutOfRange`.
pub proof fn lemma_clear_w(s: CpuState)
    requires
        s.regs.wf(),
    ensures
        !in_program(s.pc) ==> exec_spec(s, Instruction::Control(ControlInstruction::ClearW))
            == Err::<(CpuState, u8), VmError>(VmError::PcOutOfRange { pc: s.pc }),
        in_program(s.pc) ==> (exec_spec(s, Instruction::Control(ControlInstruction::ClearW)) matches Ok((t, c)) && c == 1
            && t.w == 0 && t.pc == s.pc + 2 && t.stack == s.stack
            && t.regs.status() == s.regs.status() | FLAG_Z
            && t.regs.status() & FLAG_Z != 0
            && (forall|r: Sfr| r != Sfr::STATUS ==> #[trigger] t.regs.special(r) == s.regs.special(r))
            && t.regs.gpr == s.regs.gpr),
{
    let st = s.regs.status();
    assert((st | 0x04u8) & 0x04u8 != 0) by (bit_vector);
    assert forall|r: Sfr| r != Sfr::STATUS implies #[trigger] r.spec_index() != Sfr::STATUS.spec_index() by {}
}

/// DECFSZ skips the next instruction, taking two cycles, exactly when the
/// register held 1; otherwise it moves on in one cycle.
pub proof fn lemma_decfsz_skips_iff_one(s: CpuState, f: RegisterFileAddr, dest: Destination)
    requires
        s.regs.wf(),
        in_program(s.pc),
        f.0 < 0x80,
        dest == Destination::W || writable(s.regs.bank(), f.0),
    ensures
        ({
            let v = s.regs.read(s.regs.bank(), f.0);
            let inst = Instruction::ByteOriented(
                ByteOrientedInstruction { op: ByteOrientedOperation::DecrementFSkipIfZ, f, dest },
            );
            exec_spec(s, inst) matches Ok((t, c)) && (v == 1 ==> t.pc == s.pc + 4 && c == 2) && (v != 1
                ==> t.pc == s.pc + 2 && c == 1)
        }),
{
}

/// INCFSZ skips the next instruction, taking two cycles, exactly when the
/// register held 0xFF; otherwise it moves on in one cycle.
pub proof fn lemma_incfsz_skips_iff_max(s: CpuState, f: RegisterFileAddr, dest: Destination)
    requires
        s.regs.wf(),
        in_program(s.pc),
        f.0 < 0x80,
        dest == Destination::W || writable(s.regs.bank(), f.0),
    ensures
        ({
            let v = s.regs.read(s.regs.bank(), f.0);
            let inst = Instruction::ByteOriented(
                ByteOrientedInstruction { op: ByteOrientedOperation::IncrementFSkipIfZ, f, dest },
            );
            exec_spec(s, inst) matches Ok((t, c)) && (v == 0xFF ==> t.pc == s.pc + 4 && c == 2) && (v
                != 0xFF ==> t.pc == s.pc + 2 && c == 1)
        }),
{
}

proof fn lemma_bit_test(v: u8, b: u8)
    by (bit_vector)
    requires
        b < 8,
    ensures
        (v & (1u8 << b) != 0) == ((v >> b) & 1 == 1),
{
}

/// BTFSS skips exactly when bit `b` of the register is set, and BTFSC
/// exactly when it is clear; a skip takes two cycles, no skip one.
pub proof fn lemma_bit_skips(s: CpuState, f: RegisterFileAddr, b: BitIndex)
    requires
        s.regs.wf(),
        in_program(s.pc),
        f.0 < 0x80,
        b.0 < 8,
    ensures
        ({
            let bit = (s.regs.read(s.regs.bank(), f.0) >> b.0) & 1 == 1;
            let set = Instruction::BitOriented(BitOrientedInstruction { op: BitOrientedOperation::SkipIfFBitSet, b, f });
            let clear = Instruction::BitOriented(BitOrientedInstruction { op: BitOrientedOperation::SkipIfFBitClear, b, f });
            &&& exec_spec(s, set) matches Ok((t, c)) && (bit ==> t.pc == s.pc + 4 && c == 2) && (!bit ==> t.pc == s.pc + 2 && c == 1)
            &&& exec_spec(s, clear) matches Ok((t, c)) && (!bit ==> t.pc == s.pc + 4 && c == 2) && (bit ==> t.pc == s.pc + 2 && c == 1)
        }),
{
    lemma_bit_test(s.regs.read(s.regs.bank(), f.0), b.0);
}

/// CALL succeeds exactly while fewer than eight return addresses are on the
/// stack; RETURN with an empty stack is a fault.
pub proof fn lemma_stack_limits(s: CpuState, addr: ProgramAddr)
    requires
        in_program(s.pc),
    ensures
        (exec_spec(s, Instruction::Control(ControlInstruction::Call { addr })) is Ok) == (s.stack.len() < STACK_DEPTH),
        s.stack.len() == 0 ==> exec_spec(s, Instruction::Control(ControlInstruction::Return))
            == Err::<(CpuState, u8), VmError>(VmError::StackUnderflow { pc: s.pc }),
{
}

/// A CALL followed, at its target, by a RETURN comes back to the instruction
/// after the CALL with the stack as it was, in four cycles.
pub proof fn lemma_call_then_return(s: CpuState, addr: ProgramAddr)
    requires
        in_program(s.pc),
        s.stack.len() < STACK_DEPTH,
        in_program(branch_target(addr.0, s.regs.special(Sfr::PCLATH))),
    ensures
        exec_spec(s, Instruction::Control(ControlInstruction::Call { addr })) matches Ok((t, c1))
            && exec_spec(t, Instruction::Control(ControlInstruction::Return)) matches Ok((u, c2))
            && u.pc == s.pc + 2 && u.stack == s.stack && u.w == s.w && u.regs == s.regs && c1 + c2 == 4,
{
    let t = exec_spec(s, Instruction::Control(ControlInstruction::Call { addr }))->Ok_0.0;
    assert(t.stack.drop_last() =~= s.stack);
}

} // verus!

verus! {

/// GOTO and CALL jump to word address `addr + 2048 * PCLATH<4:3>`: the 11-bit
/// operand gives bits 10..0 of the word address and PCLATH bits 4 and 3 give
/// bits 12 and 11. The program counter holds twice the word address.
pub proof fn lemma_branch_target_composition(addr: u16, pclath: u8)
    requires
        addr < 0x800,
    ensures
        branch_target(addr, pclath) == 2 * (addr + 0x800 * ((pclath >> 3u8) & 3)),
{
    assert((((addr * 2) as u16) | (((pclath & 0x18) as u16) << 9u16)) == 2 * (addr + 0x800 * (
    (pclath >> 3u8) & 3))) by (bit_vector)
        requires
            addr < 0x800,
    ;
}

} // verus!

verus! {

/// Where program memory holds zero words, each step is a NOP: the program
/// counter moves on by one instruction in one cycle and nothing else changes.
pub proof fn lemma_zero_word_steps(s: CpuState, program: Seq<u8>)
    requires
        in_program(s.pc),
        program.len() == FLASH_SIZE,
        program[s.pc as int] == 0,
        program[s.pc + 1] == 0,
    ensures
        step_spec(s, program) == Ok::<(CpuState, u8), VmError>((CpuState { pc: (s.pc + 2) as u16, ..s }, 1)),
{
    crate::inst::lemma_zero_is_noop();
}

} // verus!
