//! The joypad register (FF00): two selector bits choose which active-low
//! nibble, d-pad or buttons, shows in the low four bits.

use vstd::prelude::*;

verus! {

pub const JOYP_ADDR: u16 = 0xFF00;

#[derive(Clone, Copy, Debug, PartialEq, Eq, Structural)]
pub enum JoypadInput {
    START,
    SELECT,
    B,
    A,
    DOWN,
    UP,
    LEFT,
    RIGHT,
}

impl JoypadInput {
    /// The bit of its nibble that the input drives.
    pub open spec fn to_reg_spec(&self) -> u8 {
        match self {
            JoypadInput::START | JoypadInput::DOWN => 0x8,
            JoypadInput::SELECT | JoypadInput::UP => 0x4,
            JoypadInput::B | JoypadInput::LEFT => 0x2,
            JoypadInput::A | JoypadInput::RIGHT => 0x1,
        }
    }

    /// Whether the input belongs to the button nibble (else the d-pad).
    pub open spec fn is_button_spec(&self) -> bool {
        match self {
            JoypadInput::START | JoypadInput::SELECT | JoypadInput::A | JoypadInput::B => true,
            _ => false,
        }
    }

    #[verifier::when_used_as_spec(to_reg_spec)]
    pub fn to_reg(&self) -> (r: u8)
        ensures
            r == self.to_reg_spec(),
    {
        match self {
            JoypadInput::START | JoypadInput::DOWN => 0x8,
            JoypadInput::SELECT | JoypadInput::UP => 0x4,
            JoypadInput::B | JoypadInput::LEFT => 0x2,
            JoypadInput::A | JoypadInput::RIGHT => 0x1,
        }
    }

    #[verifier::when_used_as_spec(is_button_spec)]
    pub fn is_button(&self) -> (r: bool)
        ensures
            r == self.is_button_spec(),
    {
        match self {
            JoypadInput::START | JoypadInput::SELECT | JoypadInput::A | JoypadInput::B => true,
            _ => false,
        }
    }
}

#[derive(Clone, Copy, Debug, PartialEq, Eq, Structural)]
pub enum JoypadDirection {
    PRESS,
    RELEASE,
}

#[derive(Clone, Copy, Debug, PartialEq, Eq, Structural)]
pub struct Joypad {
    /// The d-pad nibble, a bit clear for each direction held.
    pub dpad_state: u8,
    /// The button nibble, a bit clear for each button held.
    pub button_state: u8,
    /// The selector bits 4 and 5, as last written.
    pub reg: u8,
}

impl Joypad {
    pub open spec fn dpad(&self) -> u8 {
        self.dpad_state
    }

    pub open spec fn buttons(&self) -> u8 {
        self.button_state
    }

    /// The two selector bits, as last written.
    pub open spec fn selector(&self) -> u8 {
        self.reg
    }

    /// Both nibbles hold four bits and the selector only bits 4 and 5.
    pub open spec fn wf(&self) -> bool {
        self.dpad_state < 16 && self.button_state < 16 && self.reg & 0xCF == 0
    }

    /// The joypad after a press or release of `button`: its bit of its
    /// nibble cleared on a press, set on a release.
    pub open spec fn input_spec(self, button: JoypadInput, direction: JoypadDirection) -> Joypad {
        let bit = button.to_reg_spec();
        let update = |n: u8|
            if direction == JoypadDirection::PRESS {
                n & !bit
            } else {
                n | bit
            };
        if button.is_button_spec() {
            Joypad { button_state: update(self.button_state), ..self }
        } else {
            Joypad { dpad_state: update(self.dpad_state), ..self }
        }
    }

    /// Whether `input` is held down (inputs are active low).
    pub open spec fn is_pressed_spec(&self, input: JoypadInput) -> bool {
        let nibble = if input.is_button_spec() {
            self.buttons()
        } else {
            self.dpad()
        };
        nibble & input.to_reg_spec() == 0
    }

    /// What a read of FF00 returns.
    pub open spec fn peek(&self) -> u8 {
        let dpad_sel = self.selector() & 0x10 == 0;
        let button_sel = self.selector() & 0x20 == 0;
        if button_sel && dpad_sel {
            (self.dpad() & self.buttons()) | self.selector()
        } else if button_sel {
            self.buttons() | self.selector()
        } else if dpad_sel {
            self.dpad() | self.selector()
        } else {
            0x3F
        }
    }

    /// Nothing pressed, neither nibble selected.
    pub fn new() -> (r: Self)
        ensures
            r.wf(),
            r.dpad() == 0xF,
            r.buttons() == 0xF,
            r.selector() == 0x30,
    {
        let r = Self { dpad_state: 0xF, button_state: 0xF, reg: 0x30 };
        assert(0x30u8 & 0xCF == 0) by (bit_vector);
        r
    }

    fn select_dpad(&self) -> (r: bool)
        ensures
            r == (self.selector() & 0x10 == 0),
    {
        self.reg & 0x10 == 0
    }

    fn select_buttons(&self) -> (r: bool)
        ensures
            r == (self.selector() & 0x20 == 0),
    {
        self.reg & 0x20 == 0
    }

    /// Only the selector bits of a write are kept.
    pub fn write(&mut self, addr: u16, val: u8)
        requires
            addr == JOYP_ADDR,
            old(self).wf(),
        ensures
            final(self).wf(),
            final(self).selector() == val & 0x30,
            final(self).dpad() == old(self).dpad(),
            final(self).buttons() == old(self).buttons(),
    {
        self.reg = val & 0x30;
        assert((val & 0x30) & 0xCF == 0) by (bit_vector);
    }

    pub fn read(&self, addr: u16) -> (r: u8)
        requires
            addr == JOYP_ADDR,
        ensures
            r == self.peek(),
    {
        if self.select_buttons() {
            if self.select_dpad() {
                (self.dpad_state & self.button_state) | self.reg
            } else {
                self.button_state | self.reg
            }
        } else {
            if self.select_dpad() {
                self.dpad_state | self.reg
            } else {
                0x3F
            }
        }
    }

    /// Delivers a press or release edge of one input.
    pub fn input(&mut self, button: JoypadInput, direction: JoypadDirection)
        requires
            old(self).wf(),
        ensures
            final(self).wf(),
            *final(self) == old(self).input_spec(button, direction),
            final(self).selector() == old(self).selector(),
            forall|other: JoypadInput|
                #![trigger final(self).is_pressed_spec(other)]
                final(self).is_pressed_spec(other) == if other == button {
                    direction == JoypadDirection::PRESS
                } else {
                    old(self).is_pressed_spec(other)
                },
    {
        let bit = button.to_reg();
        let old_dpad = self.dpad_state;
        let old_buttons = self.button_state;
        let pressed = direction == JoypadDirection::PRESS;
        if button.is_button() {
            self.button_state = if pressed {
                self.button_state & !bit
            } else {
                self.button_state | bit
            };
        } else {
            self.dpad_state = if pressed {
                self.dpad_state & !bit
            } else {
                self.dpad_state | bit
            };
        }
        proof {
            if button.is_button() {
                lemma_nibble_update(old_buttons, bit, self.button_state);
            } else {
                lemma_nibble_update(old_dpad, bit, self.dpad_state);
            }
        }
    }

    /// A snapshot of which inputs are held.
    pub fn get_state(&self) -> (r: JoypadState)
        ensures
            r.joypad == *self,
    {
        JoypadState { joypad: *self }
    }
}

/// Setting or clearing one of the four nibble bits keeps the nibble in four
/// bits, changes that bit as asked, and keeps the other three.
proof fn lemma_nibble_update(n: u8, bit: u8, m: u8)
    by (bit_vector)
    requires
        n < 16,
        bit == 1 || bit == 2 || bit == 4 || bit == 8,
        m == n & !bit || m == n | bit,
    ensures
        m < 16,
        m == n & !bit ==> m & bit == 0,
        m == n | bit ==> m & bit != 0,
        bit != 1 ==> (m & 1 == 0 <==> n & 1 == 0),
        bit != 2 ==> (m & 2 == 0 <==> n & 2 == 0),
        bit != 4 ==> (m & 4 == 0 <==> n & 4 == 0),
        bit != 8 ==> (m & 8 == 0 <==> n & 8 == 0),
{
}

/// Pressing a released input and releasing it again gives back the joypad
/// as it was.
pub proof fn lemma_press_release(j: Joypad, button: JoypadInput)
    requires
        j.wf(),
        !j.is_pressed_spec(button),
    ensures
        j.input_spec(button, JoypadDirection::PRESS).input_spec(button, JoypadDirection::RELEASE) == j,
{
    let bit = button.to_reg_spec();
    let b = j.button_state;
    let d = j.dpad_state;
    assert((bit == 1 || bit == 2 || bit == 4 || bit == 8) && b & bit != 0 ==> (b & !bit) | bit == b)
        by (bit_vector);
    assert((bit == 1 || bit == 2 || bit == 4 || bit == 8) && d & bit != 0 ==> (d & !bit) | bit == d)
        by (bit_vector);
}

/// Which inputs were held when the snapshot was taken.
pub struct JoypadState {
    pub joypad: Joypad,
}

impl JoypadState {
    pub fn is_pressed(&self, button: JoypadInput) -> (r: bool)
        ensures
            r == self.joypad.is_pressed_spec(button),
    {
        let state_reg = if button.is_button() {
            self.joypad.button_state
        } else {
            self.joypad.dpad_state
        };
        state_reg & button.to_reg() == 0
    }
}

} // verus!
