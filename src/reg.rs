//! The banked register file: special-function registers, general-purpose
//! registers, and the map from a bank and a 7-bit address onto them.
use vstd::prelude::*;

use crate::inst::RegisterFileAddr;

verus! {

/// Number of special-function registers.
pub const SFR_COUNT: usize = 50;

/// Number of general-purpose registers.
pub const GPR_COUNT: usize = 368;

/// STATUS<0>: carry / not borrow.
pub const FLAG_C: u8 = 0x01;

/// STATUS<1>: digit carry / not digit borrow.
pub const FLAG_DC: u8 = 0x02;

/// STATUS<2>: the result was zero.
pub const FLAG_Z: u8 = 0x04;

/// STATUS<3>: power-down.
pub const FLAG_PD: u8 = 0x08;

/// STATUS<4>: time-out.
pub const FLAG_TO: u8 = 0x10;

/// STATUS<5>: bank select, low bit.
pub const FLAG_RP0: u8 = 0x20;

/// STATUS<6>: bank select, high bit.
pub const FLAG_RP1: u8 = 0x40;

/// STATUS<7>: bank select for indirect addressing.
pub const FLAG_IRP: u8 = 0x80;

/// A special-function register of the PIC16F88.
#[allow(non_camel_case_types)]
#[derive(Debug, Clone, Copy, PartialEq, Eq, Structural)]
pub enum Sfr {
    TMR0,
    PCL,
    STATUS,
    FSR,
    PORTA,
    PORTB,
    PCLATH,
    INTCON,
    PIR1,
    PIR2,
    TMR1L,
    TMR1H,
    T1CON,
    TMR2,
    T2CON,
    SSPBUF,
    SSPCON,
    CCPR1L,
    CCPR1H,
    CCP1CON,
    RCSTA,
    TXREG,
    RCREG,
    ADRESH,
    ADCON0,
    OPTION_REG,
    TRISA,
    TRISB,
    PIE1,
    PIE2,
    PCON,
    OSCCON,
    OSCTUNE,
    PR2,
    SSPADD,
    SSPSTAT,
    TXSTA,
    SPBRG,
    ANSEL,
    CMCON,
    CVRCON,
    WDTCON,
    ADRESL,
    ADCON1,
    EEDATA,
    EEADR,
    EEDATH,
    EEADRH,
    EECON1,
    EECON2,
}

impl Sfr {
    /// The position of this register in the storage of the register file.
    pub open spec fn spec_index(self) -> usize {
        match self {
            Sfr::TMR0 => 0,
            Sfr::PCL => 1,
            Sfr::STATUS => 2,
            Sfr::FSR => 3,
            Sfr::PORTA => 4,
            Sfr::PORTB => 5,
            Sfr::PCLATH => 6,
            Sfr::INTCON => 7,
            Sfr::PIR1 => 8,
            Sfr::PIR2 => 9,
            Sfr::TMR1L => 10,
            Sfr::TMR1H => 11,
            Sfr::T1CON => 12,
            Sfr::TMR2 => 13,
            Sfr::T2CON => 14,
            Sfr::SSPBUF => 15,
            Sfr::SSPCON => 16,
            Sfr::CCPR1L => 17,
            Sfr::CCPR1H => 18,
            Sfr::CCP1CON => 19,
            Sfr::RCSTA => 20,
            Sfr::TXREG => 21,
            Sfr::RCREG => 22,
            Sfr::ADRESH => 23,
            Sfr::ADCON0 => 24,
            Sfr::OPTION_REG => 25,
            Sfr::TRISA => 26,
            Sfr::TRISB => 27,
            Sfr::PIE1 => 28,
            Sfr::PIE2 => 29,
            Sfr::PCON => 30,
            Sfr::OSCCON => 31,
            Sfr::OSCTUNE => 32,
            Sfr::PR2 => 33,
            Sfr::SSPADD => 34,
            Sfr::SSPSTAT => 35,
            Sfr::TXSTA => 36,
            Sfr::SPBRG => 37,
            Sfr::ANSEL => 38,
            Sfr::CMCON => 39,
            Sfr::CVRCON => 40,
            Sfr::WDTCON => 41,
            Sfr::ADRESL => 42,
            Sfr::ADCON1 => 43,
            Sfr::EEDATA => 44,
            Sfr::EEADR => 45,
            Sfr::EEDATH => 46,
            Sfr::EEADRH => 47,
            Sfr::EECON1 => 48,
            Sfr::EECON2 => 49,
        }
    }

    #[verifier::when_used_as_spec(spec_index)]
    pub fn index(self) -> (r: usize)
        ensures
            r == self.spec_index(),
            r < SFR_COUNT,
    {
        match self {
            Sfr::TMR0 => 0,
            Sfr::PCL => 1,
            Sfr::STATUS => 2,
            Sfr::FSR => 3,
            Sfr::PORTA => 4,
            Sfr::PORTB => 5,
            Sfr::PCLATH => 6,
            Sfr::INTCON => 7,
            Sfr::PIR1 => 8,
            Sfr::PIR2 => 9,
            Sfr::TMR1L => 10,
            Sfr::TMR1H => 11,
            Sfr::T1CON => 12,
            Sfr::TMR2 => 13,
            Sfr::T2CON => 14,
            Sfr::SSPBUF => 15,
            Sfr::SSPCON => 16,
            Sfr::CCPR1L => 17,
            Sfr::CCPR1H => 18,
            Sfr::CCP1CON => 19,
            Sfr::RCSTA => 20,
            Sfr::TXREG => 21,
            Sfr::RCREG => 22,
            Sfr::ADRESH => 23,
            Sfr::ADCON0 => 24,
            Sfr::OPTION_REG => 25,
            Sfr::TRISA => 26,
            Sfr::TRISB => 27,
            Sfr::PIE1 => 28,
            Sfr::PIE2 => 29,
            Sfr::PCON => 30,
            Sfr::OSCCON => 31,
            Sfr::OSCTUNE => 32,
            Sfr::PR2 => 33,
            Sfr::SSPADD => 34,
            Sfr::SSPSTAT => 35,
            Sfr::TXSTA => 36,
            Sfr::SPBRG => 37,
            Sfr::ANSEL => 38,
            Sfr::CMCON => 39,
            Sfr::CVRCON => 40,
            Sfr::WDTCON => 41,
            Sfr::ADRESL => 42,
            Sfr::ADCON1 => 43,
            Sfr::EEDATA => 44,
            Sfr::EEADR => 45,
            Sfr::EEDATH => 46,
            Sfr::EEADRH => 47,
            Sfr::EECON1 => 48,
            Sfr::EECON2 => 49,
        }
    }

    /// The value this register holds after a reset.
    pub open spec fn spec_reset_value(self) -> u8 {
        match self {
            Sfr::STATUS => 0x18,
            Sfr::OPTION_REG => 0xFF,
            Sfr::TRISA => 0xFF,
            Sfr::TRISB => 0xFF,
            Sfr::PR2 => 0xFF,
            Sfr::TXSTA => 0x02,
            Sfr::ANSEL => 0x7F,
            Sfr::CMCON => 0x07,
            Sfr::WDTCON => 0x08,
            _ => 0x00,
        }
    }

    #[verifier::when_used_as_spec(spec_reset_value)]
    pub fn reset_value(self) -> (r: u8)
        ensures
            r == self.spec_reset_value(),
    {
        match self {
            Sfr::STATUS => 0x18,
            Sfr::OPTION_REG => 0xFF,
            Sfr::TRISA => 0xFF,
            Sfr::TRISB => 0xFF,
            Sfr::PR2 => 0xFF,
            Sfr::TXSTA => 0x02,
            Sfr::ANSEL => 0x7F,
            Sfr::CMCON => 0x07,
            Sfr::WDTCON => 0x08,
            _ => 0x00,
        }
    }

    /// The bits of this register that are not implemented and that firmware
    /// must not set.
    pub open spec fn spec_unimplemented_bits(self) -> u8 {
        match self {
            Sfr::PCLATH => 0xE0,
            Sfr::PIR1 => 0x80,
            Sfr::PIR2 => 0x2F,
            Sfr::T1CON => 0x80,
            Sfr::T2CON => 0x80,
            Sfr::CCP1CON => 0xC0,
            Sfr::ADCON0 => 0x02,
            Sfr::PIE1 => 0x80,
            Sfr::PIE2 => 0x2F,
            Sfr::PCON => 0xFC,
            Sfr::OSCCON => 0x80,
            Sfr::OSCTUNE => 0xC0,
            Sfr::TXSTA => 0x08,
            Sfr::ANSEL => 0x80,
            Sfr::CVRCON => 0x10,
            Sfr::WDTCON => 0xE0,
            Sfr::ADCON1 => 0x0F,
            Sfr::EEDATH => 0xC0,
            Sfr::EEADRH => 0xF8,
            Sfr::EECON1 => 0x60,
            Sfr::EECON2 => 0xFF,
            _ => 0x00,
        }
    }

    #[verifier::when_used_as_spec(spec_unimplemented_bits)]
    pub fn unimplemented_bits(self) -> (r: u8)
        ensures
            r == self.spec_unimplemented_bits(),
    {
        match self {
            Sfr::PCLATH => 0xE0,
            Sfr::PIR1 => 0x80,
            Sfr::PIR2 => 0x2F,
            Sfr::T1CON => 0x80,
            Sfr::T2CON => 0x80,
            Sfr::CCP1CON => 0xC0,
            Sfr::ADCON0 => 0x02,
            Sfr::PIE1 => 0x80,
            Sfr::PIE2 => 0x2F,
            Sfr::PCON => 0xFC,
            Sfr::OSCCON => 0x80,
            Sfr::OSCTUNE => 0xC0,
            Sfr::TXSTA => 0x08,
            Sfr::ANSEL => 0x80,
            Sfr::CVRCON => 0x10,
            Sfr::WDTCON => 0xE0,
            Sfr::ADCON1 => 0x0F,
            Sfr::EEDATH => 0xC0,
            Sfr::EEADRH => 0xF8,
            Sfr::EECON1 => 0x60,
            Sfr::EECON2 => 0xFF,
            _ => 0x00,
        }
    }

    /// The bits of this register whose value is unknown after a reset; they
    /// are zero here.
    pub open spec fn spec_reset_unknown_bits(self) -> u8 {
        match self {
            Sfr::TMR0 => 0xFF,
            Sfr::STATUS => 0x07,
            Sfr::FSR => 0xFF,
            Sfr::PORTA => 0xE0,
            Sfr::PORTB => 0x3F,
            Sfr::INTCON => 0x01,
            Sfr::TMR1L => 0xFF,
            Sfr::TMR1H => 0xFF,
            Sfr::SSPBUF => 0xFF,
            Sfr::CCPR1L => 0xFF,
            Sfr::CCPR1H => 0xFF,
            Sfr::RCSTA => 0x01,
            Sfr::ADRESH => 0xFF,
            Sfr::ADRESL => 0xFF,
            Sfr::EEDATA => 0xFF,
            Sfr::EEADR => 0xFF,
            Sfr::EEDATH => 0x3F,
            Sfr::EEADRH => 0x07,
            Sfr::EECON1 => 0x98,
            _ => 0x00,
        }
    }

    #[verifier::when_used_as_spec(spec_reset_unknown_bits)]
    pub fn reset_unknown_bits(self) -> (r: u8)
        ensures
            r == self.spec_reset_unknown_bits(),
    {
        match self {
            Sfr::TMR0 => 0xFF,
            Sfr::STATUS => 0x07,
            Sfr::FSR => 0xFF,
            Sfr::PORTA => 0xE0,
            Sfr::PORTB => 0x3F,
            Sfr::INTCON => 0x01,
            Sfr::TMR1L => 0xFF,
            Sfr::TMR1H => 0xFF,
            Sfr::SSPBUF => 0xFF,
            Sfr::CCPR1L => 0xFF,
            Sfr::CCPR1H => 0xFF,
            Sfr::RCSTA => 0x01,
            Sfr::ADRESH => 0xFF,
            Sfr::ADRESL => 0xFF,
            Sfr::EEDATA => 0xFF,
            Sfr::EEADR => 0xFF,
            Sfr::EEDATH => 0x3F,
            Sfr::EEADRH => 0x07,
            Sfr::EECON1 => 0x98,
            _ => 0x00,
        }
    }
}

} // verus!

verus! {

/// One of the cells that a bank and an address resolve to.
#[derive(Debug, Clone, Copy, PartialEq, Eq, Structural)]
pub enum Cell {
    /// A special-function register.
    Special(Sfr),
    /// The general-purpose register with this index.
    General(usize),
    /// INDF, the indirect-addressing cell, which is not simulated.
    Indirect,
    /// An address with no register behind it.
    Unimplemented,
    /// An address reserved by the device.
    Reserved,
}

/// The bank selected by a STATUS value: RP1:RP0, bits 6 and 5.
pub open spec fn bank_of(status: u8) -> u8 {
    (status & 0x60) >> 5
}

/// Addresses 0x00..=0x0F of a bank.
pub open spec fn core_cell(bank: u8, addr: u8) -> Cell {
    match addr {
        0x00 => Cell::Indirect,
        0x01 => if bank == 0 || bank == 2 {
            Cell::Special(Sfr::TMR0)
        } else {
            Cell::Special(Sfr::OPTION_REG)
        },
        0x02 => Cell::Special(Sfr::PCL),
        0x03 => Cell::Special(Sfr::STATUS),
        0x04 => Cell::Special(Sfr::FSR),
        0x05 => if bank == 0 {
            Cell::Special(Sfr::PORTA)
        } else if bank == 1 {
            Cell::Special(Sfr::TRISA)
        } else if bank == 2 {
            Cell::Special(Sfr::WDTCON)
        } else {
            Cell::Unimplemented
        },
        0x06 => if bank == 0 || bank == 2 {
            Cell::Special(Sfr::PORTB)
        } else {
            Cell::Special(Sfr::TRISB)
        },
        0x0A => Cell::Special(Sfr::PCLATH),
        0x0B => Cell::Special(Sfr::INTCON),
        0x0C => if bank == 0 {
            Cell::Special(Sfr::PIR1)
        } else if bank == 1 {
            Cell::Special(Sfr::PIE1)
        } else if bank == 2 {
            Cell::Special(Sfr::EEDATA)
        } else {
            Cell::Special(Sfr::EECON1)
        },
        0x0D => if bank == 0 {
            Cell::Special(Sfr::PIR2)
        } else if bank == 1 {
            Cell::Special(Sfr::PIE2)
        } else if bank == 2 {
            Cell::Special(Sfr::EEADR)
        } else {
            Cell::Special(Sfr::EECON2)
        },
        0x0E => if bank == 0 {
            Cell::Special(Sfr::TMR1L)
        } else if bank == 1 {
            Cell::Special(Sfr::PCON)
        } else if bank == 2 {
            Cell::Special(Sfr::EEDATH)
        } else {
            Cell::Reserved
        },
        0x0F => if bank == 0 {
            Cell::Special(Sfr::TMR1H)
        } else if bank == 1 {
            Cell::Special(Sfr::OSCCON)
        } else if bank == 2 {
            Cell::Special(Sfr::EEADRH)
        } else {
            Cell::Reserved
        },
        _ => Cell::Unimplemented,
    }
}

/// Addresses 0x10..=0x1F of bank 0.
pub open spec fn bank0_peripheral_cell(addr: u8) -> Cell {
    match addr {
        0x10 => Cell::Special(Sfr::T1CON),
        0x11 => Cell::Special(Sfr::TMR2),
        0x12 => Cell::Special(Sfr::T2CON),
        0x13 => Cell::Special(Sfr::SSPBUF),
        0x14 => Cell::Special(Sfr::SSPCON),
        0x15 => Cell::Special(Sfr::CCPR1L),
        0x16 => Cell::Special(Sfr::CCPR1H),
        0x17 => Cell::Special(Sfr::CCP1CON),
        0x18 => Cell::Special(Sfr::RCSTA),
        0x19 => Cell::Special(Sfr::TXREG),
        0x1A => Cell::Special(Sfr::RCREG),
        _ => Cell::Unimplemented,
    }
}

/// Addresses 0x10..=0x1F of bank 1.
pub open spec fn bank1_peripheral_cell(addr: u8) -> Cell {
    match addr {
        0x10 => Cell::Special(Sfr::OSCTUNE),
        0x12 => Cell::Special(Sfr::PR2),
        0x13 => Cell::Special(Sfr::SSPADD),
        0x14 => Cell::Special(Sfr::SSPSTAT),
        0x18 => Cell::Special(Sfr::TXSTA),
        0x19 => Cell::Special(Sfr::SPBRG),
        0x1C => Cell::Special(Sfr::CMCON),
        0x1D => Cell::Special(Sfr::CVRCON),
        _ => Cell::Unimplemented,
    }
}

/// The cell at `addr` (0x00..=0x7F) of `bank` (0..=3).
///
/// General-purpose registers 0..=79 sit at 0x20..=0x6F of bank 0, 96..=175
/// at 0x20..=0x6F of bank 1, 176..=271 at 0x10..=0x6F of bank 2 and
/// 272..=367 at 0x10..=0x6F of bank 3. Registers 80..=95 form the common
/// window at 0x70..=0x7F, the same in every bank.
///
/// The table follows the register file map of the PIC16F88 datasheet:
/// address 0x05 is PORTA in bank 0, TRISA in bank 1 and WDTCON in bank 2
/// (not PORTA), and 0x06 is PORTB in banks 0 and 2 and TRISB in banks 1 and 3.
pub open spec fn cell_at(bank: u8, addr: u8) -> Cell {
    if addr >= 0x70 {
        Cell::General((addr - 0x70 + 80) as usize)
    } else if addr >= 0x20 && bank == 0 {
        Cell::General((addr - 0x20) as usize)
    } else if addr >= 0x20 && bank == 1 {
        Cell::General((addr - 0x20 + 96) as usize)
    } else if addr >= 0x10 && bank == 2 {
        Cell::General((addr - 0x10 + 176) as usize)
    } else if addr >= 0x10 && bank == 3 {
        Cell::General((addr - 0x10 + 272) as usize)
    } else if addr >= 0x10 && bank == 0 {
        bank0_peripheral_cell(addr)
    } else if addr >= 0x10 && bank == 1 {
        bank1_peripheral_cell(addr)
    } else {
        core_cell(bank, addr)
    }
}

/// Resolves `addr` (0x00..=0x7F) in `bank` (0..=3) to its cell.
pub fn cell_in_bank(bank: u8, addr: u8) -> (r: Cell)
    requires
        bank < 4,
        addr < 0x80,
    ensures
        r == cell_at(bank, addr),
        r matches Cell::General(i) ==> i < GPR_COUNT,
{
    if addr >= 0x70 {
        Cell::General((addr - 0x70 + 80) as usize)
    } else if addr >= 0x20 && bank == 0 {
        Cell::General((addr - 0x20) as usize)
    } else if addr >= 0x20 && bank == 1 {
        Cell::General((addr - 0x20 + 96) as usize)
    } else if addr >= 0x10 && bank == 2 {
        Cell::General((addr - 0x10) as usize + 176)
    } else if addr >= 0x10 && bank == 3 {
        Cell::General((addr - 0x10) as usize + 272)
    } else if addr >= 0x10 && bank == 0 {
        match addr {
            0x10 => Cell::Special(Sfr::T1CON),
            0x11 => Cell::Special(Sfr::TMR2),
            0x12 => Cell::Special(Sfr::T2CON),
            0x13 => Cell::Special(Sfr::SSPBUF),
            0x14 => Cell::Special(Sfr::SSPCON),
            0x15 => Cell::Special(Sfr::CCPR1L),
            0x16 => Cell::Special(Sfr::CCPR1H),
            0x17 => Cell::Special(Sfr::CCP1CON),
            0x18 => Cell::Special(Sfr::RCSTA),
            0x19 => Cell::Special(Sfr::TXREG),
            0x1A => Cell::Special(Sfr::RCREG),
            _ => Cell::Unimplemented,
        }
    } else if addr >= 0x10 && bank == 1 {
        match addr {
            0x10 => Cell::Special(Sfr::OSCTUNE),
            0x12 => Cell::Special(Sfr::PR2),
            0x13 => Cell::Special(Sfr::SSPADD),
            0x14 => Cell::Special(Sfr::SSPSTAT),
            0x18 => Cell::Special(Sfr::TXSTA),
            0x19 => Cell::Special(Sfr::SPBRG),
            0x1C => Cell::Special(Sfr::CMCON),
            0x1D => Cell::Special(Sfr::CVRCON),
            _ => Cell::Unimplemented,
        }
    } else {
        match addr {
            0x00 => Cell::Indirect,
            0x01 => if bank == 0 || bank == 2 {
                Cell::Special(Sfr::TMR0)
            } else {
                Cell::Special(Sfr::OPTION_REG)
            },
            0x02 => Cell::Special(Sfr::PCL),
            0x03 => Cell::Special(Sfr::STATUS),
            0x04 => Cell::Special(Sfr::FSR),
            0x05 => if bank == 0 {
                Cell::Special(Sfr::PORTA)
            } else if bank == 1 {
                Cell::Special(Sfr::TRISA)
            } else if bank == 2 {
                Cell::Special(Sfr::WDTCON)
            } else {
                Cell::Unimplemented
            },
            0x06 => if bank == 0 || bank == 2 {
                Cell::Special(Sfr::PORTB)
            } else {
                Cell::Special(Sfr::TRISB)
            },
            0x0A => Cell::Special(Sfr::PCLATH),
            0x0B => Cell::Special(Sfr::INTCON),
            0x0C => if bank == 0 {
                Cell::Special(Sfr::PIR1)
            } else if bank == 1 {
                Cell::Special(Sfr::PIE1)
            } else if bank == 2 {
                Cell::Special(Sfr::EEDATA)
            } else {
                Cell::Special(Sfr::EECON1)
            },
            0x0D => if bank == 0 {
                Cell::Special(Sfr::PIR2)
            } else if bank == 1 {
                Cell::Special(Sfr::PIE2)
            } else if bank == 2 {
                Cell::Special(Sfr::EEADR)
            } else {
                Cell::Special(Sfr::EECON2)
            },
            0x0E => if bank == 0 {
                Cell::Special(Sfr::TMR1L)
            } else if bank == 1 {
                Cell::Special(Sfr::PCON)
            } else if bank == 2 {
                Cell::Special(Sfr::EEDATH)
            } else {
                Cell::Reserved
            },
            0x0F => if bank == 0 {
                Cell::Special(Sfr::TMR1H)
            } else if bank == 1 {
                Cell::Special(Sfr::OSCCON)
            } else if bank == 2 {
                Cell::Special(Sfr::EEADRH)
            } else {
                Cell::Reserved
            },
            _ => Cell::Unimplemented,
        }
    }
}

} // verus!

verus! {

/// The contents of the register file: the special-function registers in
/// storage order (see `Sfr::index`) and the general-purpose registers.
pub struct RegisterFileView {
    pub sfr: Seq<u8>,
    pub gpr: Seq<u8>,
}

impl RegisterFileView {
    pub open spec fn wf(self) -> bool {
        self.sfr.len() == SFR_COUNT && self.gpr.len() == GPR_COUNT
    }

    pub open spec fn special(self, r: Sfr) -> u8 {
        self.sfr[r.spec_index() as int]
    }

    pub open spec fn status(self) -> u8 {
        self.special(Sfr::STATUS)
    }

    pub open spec fn bank(self) -> u8 {
        bank_of(self.status())
    }

    pub open spec fn with_special(self, r: Sfr, v: u8) -> RegisterFileView {
        RegisterFileView { sfr: self.sfr.update(r.spec_index() as int, v), gpr: self.gpr }
    }

    /// The value read from `addr` in `bank`: cells with no register behind
    /// them read as zero.
    pub open spec fn read(self, bank: u8, addr: u8) -> u8 {
        match cell_at(bank, addr) {
            Cell::Special(r) => self.special(r),
            Cell::General(i) => self.gpr[i as int],
            _ => 0,
        }
    }

    /// The contents after `v` is written to `addr` in `bank`; only meaningful
    /// where `writable(bank, addr)`.
    pub open spec fn write(self, bank: u8, addr: u8, v: u8) -> RegisterFileView {
        match cell_at(bank, addr) {
            Cell::Special(r) => self.with_special(r, v),
            Cell::General(i) => RegisterFileView { sfr: self.sfr, gpr: self.gpr.update(i as int, v) },
            _ => self,
        }
    }

    /// Every register holds its reset value: each special-function register
    /// the value of `Sfr::reset_value`, each general-purpose register zero.
    pub open spec fn is_reset(self) -> bool {
        &&& self.wf()
        &&& forall|r: Sfr| #[trigger] self.special(r) == r.spec_reset_value()
        &&& forall|i: int| 0 <= i < GPR_COUNT ==> #[trigger] self.gpr[i] == 0
    }
}

/// Whether a write to `addr` in `bank` is allowed: only cells backed by a
/// register can be written.
pub open spec fn writable(bank: u8, addr: u8) -> bool {
    cell_at(bank, addr) is Special || cell_at(bank, addr) is General
}

/// A fault of the register file.
#[derive(Debug, Clone, Copy, PartialEq, Eq, Structural)]
pub enum RegisterError {
    /// A write to a cell that is reserved, unimplemented or not simulated.
    ReservedWrite { addr: u8, bank: u8 },
}

/// An 8-bit cell that can be read and written.
pub trait Register {
    spec fn value(&self) -> u8;

    fn read(&self) -> (r: u8)
        ensures
            r == self.value(),
    ;

    fn write(&mut self, v: u8)
        ensures
            final(self).value() == v,
    ;
}

/// A general-purpose register: a plain 8-bit RAM cell.
#[derive(Debug, Clone, Copy, PartialEq, Eq, Structural)]
pub struct GeneralPurposeRegister(pub u8);

impl GeneralPurposeRegister {
    pub fn new() -> (r: Self)
        ensures
            r.0 == 0,
    {
        GeneralPurposeRegister(0)
    }
}

impl Default for GeneralPurposeRegister {
    fn default() -> (r: Self)
        ensures
            r.0 == 0,
    {
        Self::new()
    }
}

impl Register for GeneralPurposeRegister {
    open spec fn value(&self) -> u8 {
        self.0
    }

    fn read(&self) -> (r: u8) {
        self.0
    }

    fn write(&mut self, v: u8) {
        self.0 = v;
    }
}

/// The special-function registers, in storage order.
pub struct SpecialPurposeRegisters {
    pub cells: Vec<u8>,
}

impl View for SpecialPurposeRegisters {
    type V = Seq<u8>;

    open spec fn view(&self) -> Seq<u8> {
        self.cells@
    }
}

impl SpecialPurposeRegisters {
    /// Every register at its reset value.
    pub fn new() -> (r: Self)
        ensures
            r@.len() == SFR_COUNT,
            forall|s: Sfr| #[trigger] r@[s.spec_index() as int] == s.spec_reset_value(),
    {
        let mut regs = SpecialPurposeRegisters { cells: Vec::new() };
        let mut i: usize = 0;
        while i < SFR_COUNT
            invariant
                i <= SFR_COUNT,
                regs@.len() == i,
                forall|j: int| 0 <= j < i ==> regs@[j] == 0,
            decreases SFR_COUNT - i,
        {
            regs.cells.push(0);
            i = i + 1;
        }
        regs.set(Sfr::STATUS, Sfr::STATUS.reset_value());
        regs.set(Sfr::OPTION_REG, Sfr::OPTION_REG.reset_value());
        regs.set(Sfr::TRISA, Sfr::TRISA.reset_value());
        regs.set(Sfr::TRISB, Sfr::TRISB.reset_value());
        regs.set(Sfr::PR2, Sfr::PR2.reset_value());
        regs.set(Sfr::TXSTA, Sfr::TXSTA.reset_value());
        regs.set(Sfr::ANSEL, Sfr::ANSEL.reset_value());
        regs.set(Sfr::CMCON, Sfr::CMCON.reset_value());
        regs.set(Sfr::WDTCON, Sfr::WDTCON.reset_value());
        assert forall|s: Sfr| #[trigger] regs@[s.spec_index() as int] == s.spec_reset_value() by {}
        regs
    }

    pub fn get(&self, r: Sfr) -> (v: u8)
        requires
            self@.len() == SFR_COUNT,
        ensures
            v == self@[r.spec_index() as int],
    {
        self.cells[r.index()]
    }

    pub fn set(&mut self, r: Sfr, v: u8)
        requires
            old(self)@.len() == SFR_COUNT,
        ensures
            final(self)@ == old(self)@.update(r.spec_index() as int, v),
    {
        self.cells[r.index()] = v;
    }
}

} // verus!

verus! {

proof fn lemma_bank_range(status: u8)
    by (bit_vector)
    ensures
        (status & 0x60) >> 5 < 4,
{
}

/// The register file of the PIC16F88.
pub struct Registers {
    pub special: SpecialPurposeRegisters,
    pub gpr: Vec<GeneralPurposeRegister>,
}

impl View for Registers {
    type V = RegisterFileView;

    open spec fn view(&self) -> RegisterFileView {
        RegisterFileView {
            sfr: self.special@,
            gpr: self.gpr@.map_values(|g: GeneralPurposeRegister| g.0),
        }
    }
}

impl Default for Registers {
    fn default() -> (r: Self)
        ensures
            r.wf(),
            r@.is_reset(),
    {
        Self::new()
    }
}

impl Registers {
    pub open spec fn wf(&self) -> bool {
        self@.wf()
    }

    /// Every register at its reset value.
    pub fn new() -> (r: Self)
        ensures
            r.wf(),
            r@.is_reset(),
    {
        let special = SpecialPurposeRegisters::new();
        let mut gpr: Vec<GeneralPurposeRegister> = Vec::new();
        let mut i: usize = 0;
        while i < GPR_COUNT
            invariant
                i <= GPR_COUNT,
                gpr@.len() == i,
                forall|j: int| 0 <= j < i ==> gpr@[j].0 == 0,
            decreases GPR_COUNT - i,
        {
            gpr.push(GeneralPurposeRegister::new());
            i = i + 1;
        }
        Registers { special, gpr }
    }

    /// The special-function registers.
    pub fn special(&self) -> (r: &SpecialPurposeRegisters)
        ensures
            r@ == self@.sfr,
    {
        &self.special
    }

    /// The value of a special-function register.
    pub fn get(&self, r: Sfr) -> (v: u8)
        requires
            self.wf(),
        ensures
            v == self@.special(r),
    {
        self.special.get(r)
    }

    /// Stores `v` in a special-function register, whatever the bank.
    pub fn set(&mut self, r: Sfr, v: u8)
        requires
            old(self).wf(),
        ensures
            final(self).wf(),
            final(self)@ == old(self)@.with_special(r, v),
    {
        self.special.set(r, v);
    }

    pub fn status(&self) -> (v: u8)
        requires
            self.wf(),
        ensures
            v == self@.status(),
    {
        self.get(Sfr::STATUS)
    }

    pub fn pcl(&self) -> (v: u8)
        requires
            self.wf(),
        ensures
            v == self@.special(Sfr::PCL),
    {
        self.get(Sfr::PCL)
    }

    pub fn pclath(&self) -> (v: u8)
        requires
            self.wf(),
        ensures
            v == self@.special(Sfr::PCLATH),
    {
        self.get(Sfr::PCLATH)
    }

    pub fn porta(&self) -> (v: u8)
        requires
            self.wf(),
        ensures
            v == self@.special(Sfr::PORTA),
    {
        self.get(Sfr::PORTA)
    }

    pub fn portb(&self) -> (v: u8)
        requires
            self.wf(),
        ensures
            v == self@.special(Sfr::PORTB),
    {
        self.get(Sfr::PORTB)
    }

    /// The value of general-purpose register `i`.
    pub fn general(&self, i: usize) -> (v: u8)
        requires
            self.wf(),
            i < GPR_COUNT,
        ensures
            v == self@.gpr[i as int],
    {
        self.gpr[i].read()
    }

    /// The bank that STATUS selects.
    pub fn bank(&self) -> (b: u8)
        requires
            self.wf(),
        ensures
            b == self@.bank(),
            b < 4,
    {
        proof {
            lemma_bank_range(self@.status());
        }
        (self.status() & 0x60) >> 5
    }

    /// The cell that `addr` names in the current bank.
    pub fn resolve(&self, addr: RegisterFileAddr) -> (c: Cell)
        requires
            self.wf(),
            addr.0 < 0x80,
        ensures
            c == cell_at(self@.bank(), addr.0),
    {
        cell_in_bank(self.bank(), addr.0)
    }

    /// Reads `addr` in the current bank; a cell with no register behind it
    /// reads as zero.
    pub fn read(&self, addr: RegisterFileAddr) -> (v: u8)
        requires
            self.wf(),
            addr.0 < 0x80,
        ensures
            v == self@.read(self@.bank(), addr.0),
    {
        self.read_in_bank(self.bank(), addr.0)
    }

    /// Reads `addr` in `bank`.
    pub fn read_in_bank(&self, bank: u8, addr: u8) -> (v: u8)
        requires
            self.wf(),
            bank < 4,
            addr < 0x80,
        ensures
            v == self@.read(bank, addr),
    {
        match cell_in_bank(bank, addr) {
            Cell::Special(r) => self.get(r),
            Cell::General(i) => self.general(i),
            _ => 0,
        }
    }

    /// Writes `v` to `addr` in the current bank. A write to a cell with no
    /// register behind it is refused and changes nothing.
    pub fn write(&mut self, addr: RegisterFileAddr, v: u8) -> (r: Result<(), RegisterError>)
        requires
            old(self).wf(),
            addr.0 < 0x80,
        ensures
            final(self).wf(),
            writable(old(self)@.bank(), addr.0) ==> r is Ok && final(self)@ == old(self)@.write(
                old(self)@.bank(),
                addr.0,
                v,
            ),
            !writable(old(self)@.bank(), addr.0) ==> r == Err::<(), RegisterError>(
                RegisterError::ReservedWrite { addr: addr.0, bank: old(self)@.bank() },
            ) && final(self)@ == old(self)@,
    {
        let bank = self.bank();
        self.write_in_bank(bank, addr.0, v)
    }

    /// Writes `v` to `addr` in `bank`.
    pub fn write_in_bank(&mut self, bank: u8, addr: u8, v: u8) -> (r: Result<(), RegisterError>)
        requires
            old(self).wf(),
            bank < 4,
            addr < 0x80,
        ensures
            final(self).wf(),
            writable(bank, addr) ==> r is Ok && final(self)@ == old(self)@.write(bank, addr, v),
            !writable(bank, addr) ==> r == Err::<(), RegisterError>(
                RegisterError::ReservedWrite { addr, bank },
            ) && final(self)@ == old(self)@,
    {
        match cell_in_bank(bank, addr) {
            Cell::Special(r) => {
                self.set(r, v);
                Ok(())
            },
            Cell::General(i) => {
                let ghost before = self@;
                self.gpr[i].write(v);
                assert(self@.gpr =~= before.gpr.update(i as int, v));
                Ok(())
            },
            _ => Err(RegisterError::ReservedWrite { addr, bank }),
        }
    }
}

} // verus!

verus! {

/// The common window 0x70..=0x7F is one set of cells in every bank: a value
/// written there through one bank is read back through any other.
pub proof fn lemma_common_window_shared(v: RegisterFileView, written_bank: u8, read_bank: u8, addr: u8, x: u8)
    requires
        v.wf(),
        written_bank < 4,
        read_bank < 4,
        0x70 <= addr <= 0x7F,
    ensures
        writable(written_bank, addr),
        v.write(written_bank, addr, x).read(read_bank, addr) == x,
{
}

} // verus!

verus! {

/// Whether `addr` in `bank` can be written.
pub fn is_writable(bank: u8, addr: u8) -> (r: bool)
    requires
        bank < 4,
        addr < 0x80,
    ensures
        r == writable(bank, addr),
{
    match cell_in_bank(bank, addr) {
        Cell::Special(_) => true,
        Cell::General(_) => true,
        _ => false,
    }
}

} // verus!
