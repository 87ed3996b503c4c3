//! Watching the port pins of an HD44780 LCD wired to the processor: enable on
//! PORTA<3>, register select on PORTA<4>, the data nibble on PORTB<3:0>.
use vstd::prelude::*;

verus! {

/// What the LCD latches on a falling edge of its enable line.
#[derive(Debug, Clone, Copy, PartialEq, Eq, Structural)]
pub struct LcdWrite {
    /// Register select: data when set, command when clear.
    pub rs: bool,
    /// The data lines DB7..DB4 in the high nibble.
    pub db: u8,
}

/// The enable line, PORTA<3>.
pub open spec fn lcd_enable(porta: u8) -> bool {
    porta & 0x08 != 0
}

/// The write that the LCD sees from these port values.
pub open spec fn lcd_write_of(porta: u8, portb: u8) -> LcdWrite {
    LcdWrite { rs: porta & 0x10 != 0, db: portb << 4u8 }
}

/// Remembers the enable line between observations.
pub struct LcdProbe {
    enable_before: bool,
}

impl LcdProbe {
    /// Whether the enable line was high at the last observation.
    pub closed spec fn enable_before(&self) -> bool {
        self.enable_before
    }

    pub fn new() -> (r: Self)
        ensures
            !r.enable_before(),
    {
        LcdProbe { enable_before: false }
    }

    /// Observes the ports after an instruction; a write is reported exactly
    /// when the enable line has just fallen.
    pub fn observe(&mut self, porta: u8, portb: u8) -> (r: Option<LcdWrite>)
        ensures
            final(self).enable_before() == lcd_enable(porta),
            old(self).enable_before() && !lcd_enable(porta) ==> r == Some(lcd_write_of(porta, portb)),
            !(old(self).enable_before() && !lcd_enable(porta)) ==> r is None,
    {
        let enable = porta & 0x08 != 0;
        let r = if self.enable_before && !enable {
            Some(LcdWrite { rs: porta & 0x10 != 0, db: portb << 4u8 })
        } else {
            None
        };
        self.enable_before = enable;
        r
    }
}

} // verus!
