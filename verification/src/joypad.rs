//! The standard controller: an eight-bit latch read out one bit at a time.

use vstd::prelude::*;

verus! {

/// One of the eight buttons on a standard controller.
#[derive(Debug, PartialEq, Eq, Structural, Clone, Copy)]
pub enum JoypadButton {
    BUTTON_A,
    BUTTON_B,
    SELECT,
    START,
    UP,
    DOWN,
    LEFT,
    RIGHT,
}

/// The bit each button occupies in the packed status byte.
pub open spec fn button_bit(b: JoypadButton) -> u8 {
    match b {
        JoypadButton::BUTTON_A => 0x01,
        JoypadButton::BUTTON_B => 0x02,
        JoypadButton::SELECT => 0x04,
        JoypadButton::START => 0x08,
        JoypadButton::UP => 0x10,
        JoypadButton::DOWN => 0x20,
        JoypadButton::LEFT => 0x40,
        JoypadButton::RIGHT => 0x80,
    }
}

impl JoypadButton {
    /// The packed-byte mask of this button.
    pub fn mask(&self) -> (r: u8)
        ensures
            r == button_bit(*self),
    {
        match self {
            JoypadButton::BUTTON_A => 0x01,
            JoypadButton::BUTTON_B => 0x02,
            JoypadButton::SELECT => 0x04,
            JoypadButton::START => 0x08,
            JoypadButton::UP => 0x10,
            JoypadButton::DOWN => 0x20,
            JoypadButton::LEFT => 0x40,
            JoypadButton::RIGHT => 0x80,
        }
    }
}

/// Snapshot of a controller for save states.
pub struct JoypadState {
    pub strobe: bool,
    pub button_index: u8,
    pub button_status: u8,
    pub latched_status: u8,
}

/// Shift-register view of the controller as the console sees it. The host
/// keeps `button_status` current; a strobe write captures it into
/// `latched_status`, the snapshot serial reads report from.
pub struct Joypad {
    pub strobe: bool,
    pub button_index: u8,
    pub button_status: u8,
    pub latched_status: u8,
}

impl Joypad {
    pub fn new() -> (r: Joypad)
        ensures
            !r.strobe,
            r.button_index == 0,
            r.button_status == 0,
            r.latched_status == 0,
    {
        Joypad { strobe: false, button_index: 0, button_status: 0, latched_status: 0 }
    }

    /// The host input layer sets or clears one button bit.
    pub fn set_button_pressed_status(&mut self, button: JoypadButton, pressed: bool)
        ensures
            final(self).button_status == if pressed {
                old(self).button_status | button_bit(button)
            } else {
                old(self).button_status & !button_bit(button)
            },
            final(self).strobe == old(self).strobe,
            final(self).button_index == old(self).button_index,
    {
        let m = button.mask();
        if pressed {
            self.button_status = self.button_status | m;
        } else {
            self.button_status = self.button_status & !m;
        }
    }

    /// Strobe write: bit 0 set captures the current button state as the
    /// reported snapshot and holds the shift index at 0.
    pub fn write(&mut self, data: u8)
        ensures
            final(self).strobe == (data & 1 == 1),
            final(self).button_index == if data & 1 == 1 { 0u8 } else { old(self).button_index },
            final(self).button_status == old(self).button_status,
            final(self).latched_status == if data & 1 == 1 {
                old(self).button_status
            } else {
                old(self).latched_status
            },
    {
        self.strobe = data & 1 == 1;
        if self.strobe {
            self.button_index = 0;
            self.latched_status = self.button_status;
        }
    }

    /// Serial read: the next bit of the state captured at the strobe,
    /// OR'd with 0x40, or 0x41 once all eight bits have been shifted out.
    /// The index advances only while the strobe is low.
    pub fn read(&mut self) -> (r: u8)
        ensures
            old(self).button_index > 7 ==> r == 0x41 && *final(self) == *old(self),
            old(self).button_index <= 7 ==> {
                &&& r == 0x40 | ((old(self).latched_status >> old(self).button_index) & 1)
                &&& final(self).button_index == if old(self).strobe {
                    old(self).button_index
                } else {
                    (old(self).button_index + 1) as u8
                }
                &&& final(self).strobe == old(self).strobe
                &&& final(self).button_status == old(self).button_status
                &&& final(self).latched_status == old(self).latched_status
            },
    {
        if self.button_index > 7 {
            return 0x41;
        }
        let response = (self.latched_status >> self.button_index) & 1;
        if !self.strobe {
            self.button_index += 1;
        }
        0x40 | response
    }

    /// Like `read`, without side effects and without the identification bit.
    pub fn peek(&self) -> (r: u8)
        ensures
            self.button_index > 7 ==> r == 1,
            self.button_index <= 7 ==> r == (self.latched_status >> self.button_index) & 1,
    {
        if self.button_index > 7 {
            return 1;
        }
        (self.latched_status >> self.button_index) & 1
    }

    pub fn save_state(&self) -> (r: JoypadState)
        ensures
            r.strobe == self.strobe,
            r.button_index == self.button_index,
            r.button_status == self.button_status,
            r.latched_status == self.latched_status,
    {
        JoypadState {
            strobe: self.strobe,
            button_index: self.button_index,
            button_status: self.button_status,
            latched_status: self.latched_status,
        }
    }

    pub fn load_state(&mut self, state: &JoypadState)
        ensures
            final(self).strobe == state.strobe,
            final(self).button_index == state.button_index,
            final(self).button_status == state.button_status,
            final(self).latched_status == state.latched_status,
    {
        self.strobe = state.strobe;
        self.button_index = state.button_index;
        self.button_status = state.button_status;
        self.latched_status = state.latched_status;
    }
}

} // verus!
