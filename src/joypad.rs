//! The joypad matrix behind port P1.
use vstd::prelude::*;

use crate::bus::{BusDevice, Port};

verus! {

/// The eight buttons, in the order of their bits in `Joypad::buttons`:
/// the direction row in bits 0-3, the action row in bits 4-7.
#[derive(Copy, Clone)]
pub enum Button {
    Right,
    Left,
    Up,
    Down,
    A,
    B,
    Select,
    Start,
}

pub open spec fn button_mask(b: Button) -> u8 {
    match b {
        Button::Right => 0x01,
        Button::Left => 0x02,
        Button::Up => 0x04,
        Button::Down => 0x08,
        Button::A => 0x10,
        Button::B => 0x20,
        Button::Select => 0x40,
        Button::Start => 0x80,
    }
}

fn mask_of(b: Button) -> (r: u8)
    ensures
        r == button_mask(b),
{
    match b {
        Button::Right => 0x01,
        Button::Left => 0x02,
        Button::Up => 0x04,
        Button::Down => 0x08,
        Button::A => 0x10,
        Button::B => 0x20,
        Button::Select => 0x40,
        Button::Start => 0x80,
    }
}

/// The value P1 reads: the row-select bits 4-5 as written, and in bits 0-3
/// a low bit for each pressed button of a selected row (a row is selected
/// by a zero in its select bit: bit 4 for directions, bit 5 for actions).
pub open spec fn p1_value(select: u8, buttons: u8) -> u8 {
    let s = select & 0x30;
    let dirs = if s & 0x10 == 0 { buttons % 16 } else { 0 };
    let acts = if s & 0x20 == 0 { buttons / 16 } else { 0 };
    s | (0x0F & !(dirs | acts))
}

/// The host's button state as the emulated joypad port presents it.
pub struct Joypad {
    /// The row-select bits last written to P1.
    pub select: u8,
    /// One bit per pressed button, as `Button` orders them.
    pub buttons: u8,
}

impl Joypad {
    pub fn new() -> (r: Self)
        ensures
            r.select == 0x30,
            r.buttons == 0,
    {
        Joypad { select: 0x30, buttons: 0 }
    }

    pub fn press(&mut self, button: Button)
        ensures
            *final(self) == (Joypad { buttons: old(self).buttons | button_mask(button), ..*old(self) }),
    {
        self.buttons = self.buttons | mask_of(button);
    }

    pub fn release(&mut self, button: Button)
        ensures
            *final(self) == (Joypad { buttons: old(self).buttons & !button_mask(button), ..*old(self) }),
    {
        self.buttons = self.buttons & !mask_of(button);
    }

    /// Replaces the whole button state.
    pub fn set_buttons(&mut self, buttons: u8)
        ensures
            *final(self) == (Joypad { buttons, ..*old(self) }),
    {
        self.buttons = buttons;
    }
}

impl BusDevice for Joypad {
    open spec fn peek(&self, addr: u16) -> u8 {
        if addr == Port::P1 {
            p1_value(self.select, self.buttons)
        } else {
            0xFF
        }
    }

    open spec fn poke(self, addr: u16, value: u8) -> Self {
        if addr == Port::P1 {
            Joypad { select: value & 0x30, ..self }
        } else {
            self
        }
    }

    /// No row selected; the buttons are the host's and stay as they are.
    open spec fn reset_state(self) -> Self {
        Joypad { select: 0x30, ..self }
    }

    fn reset(&mut self) {
        self.select = 0x30;
    }

    fn read(&mut self, addr: u16) -> (r: u8) {
        if addr == Port::P1 {
            let s = self.select & 0x30;
            let dirs = if s & 0x10 == 0 { self.buttons % 16 } else { 0 };
            let acts = if s & 0x20 == 0 { self.buttons / 16 } else { 0 };
            s | (0x0F & !(dirs | acts))
        } else {
            0xFF
        }
    }

    fn write(&mut self, addr: u16, value: u8) {
        if addr == Port::P1 {
            self.select = value & 0x30;
        }
    }
}

} // verus!
