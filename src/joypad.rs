use vstd::prelude::*;

verus! {

/// The buttons of a standard controller, in the order its shift register reports them.
pub const A: u8 = 0;
pub const B: u8 = 1;
pub const SELECT: u8 = 2;
pub const START: u8 = 3;
pub const UP: u8 = 4;
pub const DOWN: u8 = 5;
pub const LEFT: u8 = 6;
pub const RIGHT: u8 = 7;

/// A standard controller: eight buttons read out one bit per read after a strobe.
#[derive(Clone, Copy, Debug, PartialEq, Eq, Structural)]
pub struct Joypad {
    pub a: bool,
    pub b: bool,
    pub up: bool,
    pub down: bool,
    pub left: bool,
    pub right: bool,
    pub start: bool,
    pub select: bool,
    /// How many buttons have been reported since the last reload (8: all of them).
    pub strobe: u8,
    /// Whether the strobe line is held high, which reloads on every read.
    pub strobe_high: bool,
}

impl Joypad {
    /// The state of button `i` (0..8, in report order).
    pub open spec fn button(&self, i: u8) -> bool {
        if i == A {
            self.a
        } else if i == B {
            self.b
        } else if i == SELECT {
            self.select
        } else if i == START {
            self.start
        } else if i == UP {
            self.up
        } else if i == DOWN {
            self.down
        } else if i == LEFT {
            self.left
        } else {
            self.right
        }
    }

    /// The bit that the next read reports.
    pub open spec fn peek(&self) -> bool {
        if self.strobe_high {
            self.a
        } else if self.strobe >= 8 {
            true
        } else {
            self.button(self.strobe)
        }
    }

    /// The controller after one read.
    pub open spec fn after_read(&self) -> Joypad {
        if self.strobe_high || self.strobe >= 8 {
            *self
        } else {
            Joypad { strobe: (self.strobe + 1) as u8, ..*self }
        }
    }

    /// A controller with no button pressed.
    pub fn new() -> (j: Joypad)
        ensures
            !j.a && !j.b && !j.select && !j.start && !j.up && !j.down && !j.left && !j.right,
            j.strobe == 0,
            !j.strobe_high,
    {
        Joypad {
            a: false,
            b: false,
            up: false,
            down: false,
            left: false,
            right: false,
            start: false,
            select: false,
            strobe: 0,
            strobe_high: false,
        }
    }

    fn next(&mut self)
        ensures
            *final(self) == (Joypad {
                strobe: if old(self).strobe < 8 { (old(self).strobe + 1) as u8 } else { old(self).strobe },
                ..*old(self)
            }),
    {
        if self.strobe < 8 {
            self.strobe = self.strobe + 1;
        }
    }

    /// Reloads the shift register from the buttons.
    pub fn reset(&mut self)
        ensures
            *final(self) == (Joypad { strobe: 0, ..*old(self) }),
    {
        self.strobe = 0;
    }

    /// A CPU write to the controller port: bit 0 is the strobe line; the shift
    /// register reloads.
    pub fn write(&mut self, val: u8)
        ensures
            *final(self) == (Joypad { strobe: 0, strobe_high: val & 1u8 == 1, ..*old(self) }),
    {
        self.strobe_high = val & 1 == 1;
        self.reset();
    }

    /// Reports the next button (1 if pressed). After all eight, reads report 1, as
    /// official controllers do.
    pub fn state(&mut self) -> (r: bool)
        ensures
            r == old(self).peek(),
            *final(self) == old(self).after_read(),
    {
        if self.strobe_high {
            return self.a;
        }
        if self.strobe >= 8 {
            return true;
        }
        let val = match self.strobe {
            A => self.a,
            B => self.b,
            SELECT => self.select,
            START => self.start,
            UP => self.up,
            DOWN => self.down,
            LEFT => self.left,
            _ => self.right,
        };
        self.next();
        val
    }
}

} // verus!
