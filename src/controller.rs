use vstd::prelude::*;

verus! {

/// One or more controller buttons as a bit set.
#[derive(Debug, Clone, Copy, PartialEq, Eq, Structural, Hash)]
pub struct Button(pub u8);

impl Button {
    pub const A: u8 = 0x01;
    pub const B: u8 = 0x02;
    pub const SELECT: u8 = 0x04;
    pub const START: u8 = 0x08;
    pub const UP: u8 = 0x10;
    pub const DOWN: u8 = 0x20;
    pub const LEFT: u8 = 0x40;
    pub const RIGHT: u8 = 0x80;

    pub open spec fn is_single(&self) -> bool {
        self.0 == 0x01 || self.0 == 0x02 || self.0 == 0x04 || self.0 == 0x08 || self.0 == 0x10
            || self.0 == 0x20 || self.0 == 0x40 || self.0 == 0x80
    }

    /// Display name of a single button.
    pub fn name(self) -> (r: &'static str)
        requires
            self.is_single(),
        ensures
            self.0 == Button::A ==> r@ == "A"@,
            self.0 == Button::B ==> r@ == "B"@,
            self.0 == Button::SELECT ==> r@ == "Select"@,
            self.0 == Button::START ==> r@ == "Start"@,
            self.0 == Button::UP ==> r@ == "Up"@,
            self.0 == Button::DOWN ==> r@ == "Down"@,
            self.0 == Button::LEFT ==> r@ == "Left"@,
            self.0 == Button::RIGHT ==> r@ == "Right"@,
    {
        if self.0 == Button::A {
            "A"
        } else if self.0 == Button::B {
            "B"
        } else if self.0 == Button::SELECT {
            "Select"
        } else if self.0 == Button::START {
            "Start"
        } else if self.0 == Button::DOWN {
            "Down"
        } else if self.0 == Button::UP {
            "Up"
        } else if self.0 == Button::LEFT {
            "Left"
        } else {
            "Right"
        }
    }
}

/// A standard controller: a button state latched into an 8-bit shift register.
#[derive(Debug, Clone, Copy, PartialEq, Eq, Structural)]
pub struct Controller {
    pub strobe_active: bool,
    pub shift_register: u8,
    /// Buttons held down.
    pub state: Button,
}

impl Default for Controller {
    fn default() -> (r: Self)
        ensures
            r == (Controller { strobe_active: false, shift_register: 0, state: Button(0) }),
    {
        Controller { strobe_active: false, shift_register: 0, state: Button(0) }
    }
}

impl Controller {
    /// The controller after a write of `value` to its port.
    pub open spec fn after_write(&self, value: u8) -> Controller {
        let strobe = value & 1 != 0;
        Controller {
            strobe_active: strobe,
            shift_register: if strobe { self.shift_register } else { self.state.0 },
            state: self.state,
        }
    }

    /// The bit a read returns.
    pub open spec fn read_value(&self) -> u8 {
        if self.strobe_active { self.state.0 & 1 } else { self.shift_register & 1 }
    }

    /// The controller after a read.
    pub open spec fn after_read(&self) -> Controller {
        if self.strobe_active {
            *self
        } else {
            Controller { shift_register: (self.shift_register >> 1u8) | 0x80, ..*self }
        }
    }

    /// Strobe write: bit 0 holds the strobe; releasing it latches the buttons.
    pub fn write_u8(&mut self, value: u8)
        ensures
            *final(self) == old(self).after_write(value),
    {
        self.strobe_active = value & 0b1 != 0;
        if !self.strobe_active {
            self.shift_register = self.state.0;
        }
    }

    /// Serial read: button A while strobing, else the next latched bit, with 1s after the eighth.
    pub fn read_u8(&mut self) -> (r: u8)
        ensures
            r == old(self).read_value(),
            *final(self) == old(self).after_read(),
    {
        if self.strobe_active {
            self.state.0 & 1
        } else {
            let bit = self.shift_register & 0b1;
            self.shift_register = (self.shift_register >> 1u8) | 0b1000_0000;
            bit
        }
    }

    /// Presses or releases `button`. Unless `allow_left_right`, pressing a direction whose
    /// opposite is held is ignored.
    pub fn set(&mut self, button: Button, held: bool, allow_left_right: bool)
        ensures
            ({
                let s = old(self).state.0;
                let refused = !allow_left_right && held && (
                    (button.0 == Button::LEFT && s & Button::RIGHT != 0)
                    || (button.0 == Button::RIGHT && s & Button::LEFT != 0)
                    || (button.0 == Button::UP && s & Button::DOWN != 0)
                    || (button.0 == Button::DOWN && s & Button::UP != 0));
                final(self).state.0 == if refused {
                    s
                } else if held {
                    s | button.0
                } else {
                    s & !button.0
                }
            }),
            final(self).strobe_active == old(self).strobe_active,
            final(self).shift_register == old(self).shift_register,
    {
        let s = self.state.0;
        if !allow_left_right && held {
            if (button.0 == Button::LEFT && s & Button::RIGHT != 0) || (button.0 == Button::RIGHT
                && s & Button::LEFT != 0) || (button.0 == Button::UP && s & Button::DOWN != 0)
                || (button.0 == Button::DOWN && s & Button::UP != 0) {
                return;
            }
        }
        if held {
            self.state = Button(s | button.0);
        } else {
            self.state = Button(s & !button.0);
        }
    }
}

} // verus!
