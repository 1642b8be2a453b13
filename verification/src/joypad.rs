//! The joypad register at 0xFF00: two button groups behind two active-low
//! select lines. Internally a cleared bit means "pressed"; the register
//! read presents the wire view.

use vstd::prelude::*;

verus! {

/// The eight input buttons.
#[derive(Clone, Copy, Debug, PartialEq, Eq, Structural)]
pub enum Button {
    Right,
    Left,
    Up,
    Down,
    A,
    B,
    Select,
    Start,
}

/// Joypad state. Bits 0-3 of each group are active low (0 = pressed);
/// `select` holds the last written select lines in bits 4-5.
#[derive(Clone, Copy, Debug, PartialEq, Eq, Structural)]
pub struct Joypad {
    /// Right, Left, Up, Down in bits 0-3, active low.
    pub direction_buttons: u8,
    /// A, B, Select, Start in bits 0-3, active low.
    pub action_buttons: u8,
    /// Select lines in bits 4-5, active low.
    pub select: u8,
}

/// The group a button belongs to and its bit: directions in one nibble,
/// actions in the other.
pub open spec fn spec_button_mask(button: Button) -> u8 {
    match button {
        Button::Right => 0x01,
        Button::Left => 0x02,
        Button::Up => 0x04,
        Button::Down => 0x08,
        Button::A => 0x01,
        Button::B => 0x02,
        Button::Select => 0x04,
        Button::Start => 0x08,
    }
}

/// Whether the button sits in the direction group (else the action group).
pub open spec fn spec_is_direction(button: Button) -> bool {
    match button {
        Button::Right | Button::Left | Button::Up | Button::Down => true,
        _ => false,
    }
}

/// The joypad state after pressing `button`: its bit cleared in its group.
pub open spec fn spec_press(j: Joypad, button: Button) -> Joypad {
    if spec_is_direction(button) {
        Joypad { direction_buttons: j.direction_buttons & !spec_button_mask(button), ..j }
    } else {
        Joypad { action_buttons: j.action_buttons & !spec_button_mask(button), ..j }
    }
}

/// The joypad state after releasing `button`: its bit set in its group.
pub open spec fn spec_release(j: Joypad, button: Button) -> Joypad {
    if spec_is_direction(button) {
        Joypad { direction_buttons: j.direction_buttons | spec_button_mask(button), ..j }
    } else {
        Joypad { action_buttons: j.action_buttons | spec_button_mask(button), ..j }
    }
}

/// The byte a read of 0xFF00 returns: bits 6-7 high, bits 4-5 as written,
/// bits 0-3 the AND of every selected group (high when none is selected).
pub open spec fn spec_joypad_read(j: Joypad) -> u8 {
    let with_dir: u8 = if j.select & 0x10 == 0 {
        0x0Fu8 & j.direction_buttons
    } else {
        0x0Fu8
    };
    let buttons: u8 = if j.select & 0x20 == 0 {
        with_dir & j.action_buttons
    } else {
        with_dir
    };
    ((0xC0u8 | (j.select & 0x30)) | (buttons & 0x0F)) as u8
}

/// The joypad state after a register write: only bits 4-5 are taken.
pub open spec fn spec_joypad_write(j: Joypad, value: u8) -> Joypad {
    Joypad { select: value & 0x30, ..j }
}

impl Joypad {
    /// A joypad with every button released and neither group selected.
    pub fn new() -> (r: Joypad)
        ensures
            r == (Joypad { direction_buttons: 0x0Fu8, action_buttons: 0x0Fu8, select: 0x30u8 }),
    {
        Joypad { direction_buttons: 0x0F, action_buttons: 0x0F, select: 0x30 }
    }

    /// Mark `button` pressed: clear its bit in its group.
    pub fn press(&mut self, button: Button)
        ensures
            *final(self) == spec_press(*old(self), button),
    {
        match button {
            Button::Right => self.direction_buttons &= !0x01,
            Button::Left => self.direction_buttons &= !0x02,
            Button::Up => self.direction_buttons &= !0x04,
            Button::Down => self.direction_buttons &= !0x08,
            Button::A => self.action_buttons &= !0x01,
            Button::B => self.action_buttons &= !0x02,
            Button::Select => self.action_buttons &= !0x04,
            Button::Start => self.action_buttons &= !0x08,
        }
    }

    /// Mark `button` released: set its bit in its group.
    pub fn release(&mut self, button: Button)
        ensures
            *final(self) == spec_release(*old(self), button),
    {
        match button {
            Button::Right => self.direction_buttons |= 0x01,
            Button::Left => self.direction_buttons |= 0x02,
            Button::Up => self.direction_buttons |= 0x04,
            Button::Down => self.direction_buttons |= 0x08,
            Button::A => self.action_buttons |= 0x01,
            Button::B => self.action_buttons |= 0x02,
            Button::Select => self.action_buttons |= 0x04,
            Button::Start => self.action_buttons |= 0x08,
        }
    }

    /// Read the register: select lines and the selected groups' bits.
    pub fn read(&self) -> (r: u8)
        ensures
            r == spec_joypad_read(*self),
    {
        let mut buttons: u8 = 0x0F;
        if self.select & 0x10 == 0 {
            buttons &= self.direction_buttons;
        }
        if self.select & 0x20 == 0 {
            buttons &= self.action_buttons;
        }
        (0xC0 | (self.select & 0x30)) | (buttons & 0x0F)
    }

    /// Write the register: only the select lines in bits 4-5 stick.
    pub fn write(&mut self, value: u8)
        ensures
            *final(self) == spec_joypad_write(*old(self), value),
    {
        self.select = value & 0x30;
    }

    /// Whether any button of either group is held down.
    pub fn any_pressed(&self) -> (r: bool)
        ensures
            r == (self.direction_buttons != 0x0F || self.action_buttons != 0x0F),
    {
        self.direction_buttons != 0x0F || self.action_buttons != 0x0F
    }
}

} // verus!
