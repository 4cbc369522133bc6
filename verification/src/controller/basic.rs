//! The standard pad: eight buttons behind a strobe-latched shift register.
//!
//! Buttons are numbered in report order: A, B, Select, Start, Up, Down,
//! Left, Right. In a byte of buttons, bit `i` is button `i`.

use vstd::prelude::*;
use crate::controller::Controller;

verus! {

pub const BUTTON_A: u8 = 0x01;

pub const BUTTON_B: u8 = 0x02;

pub const BUTTON_SELECT: u8 = 0x04;

pub const BUTTON_START: u8 = 0x08;

pub const BUTTON_UP: u8 = 0x10;

pub const BUTTON_DOWN: u8 = 0x20;

pub const BUTTON_LEFT: u8 = 0x40;

pub const BUTTON_RIGHT: u8 = 0x80;

/// The address of the strobe register, which is also port 1.
pub const PORT1_ADDR: usize = 0x4016;

/// The address of port 2.
pub const PORT2_ADDR: usize = 0x4017;

#[allow(non_snake_case)]
#[derive(Debug, Clone, Copy)]
pub struct NesController {
    pub A: bool,
    pub B: bool,
    pub Start: bool,
    pub Select: bool,
    /// Up, Down, Left, Right.
    pub DPad: (bool, bool, bool, bool),
    /// Whether opposite directions may be held together.
    pub opposite_dpad: bool,
    /// The buttons that the host reports as held.
    pub input: u8,
    /// The buttons as latched when the strobe was last cleared.
    pub output: u8,
    pub port: usize,
    /// How many bits of the latched byte have been read.
    pub report_count: u8,
    pub strobe: bool,
}

/// A byte of buttons without the second of each pair of opposite
/// directions that are held together: Down yields to Up, Right to Left.
pub open spec fn drop_opposites(input: u8) -> u8 {
    let a = if input & BUTTON_UP != 0 && input & BUTTON_DOWN != 0 {
        input & !BUTTON_DOWN
    } else {
        input
    };
    if a & BUTTON_LEFT != 0 && a & BUTTON_RIGHT != 0 {
        a & !BUTTON_RIGHT
    } else {
        a
    }
}

impl NesController {
    /// The buttons held, as a byte.
    pub open spec fn buttons(self) -> u8 {
        (if self.A { BUTTON_A } else { 0 }) | (if self.B { BUTTON_B } else { 0 }) | (if self.Select {
            BUTTON_SELECT
        } else {
            0
        }) | (if self.Start { BUTTON_START } else { 0 }) | (if self.DPad.0 { BUTTON_UP } else { 0 })
            | (if self.DPad.1 { BUTTON_DOWN } else { 0 }) | (if self.DPad.2 {
            BUTTON_LEFT
        } else {
            0
        }) | (if self.DPad.3 { BUTTON_RIGHT } else { 0 })
    }

    /// The address that this pad answers on.
    pub open spec fn port_addr(self) -> int {
        if self.port % 2 == 0 {
            0x4016
        } else {
            0x4017
        }
    }

    /// The pad after the host's input is taken over: the buttons are those of
    /// `input`, less dropped opposites unless they are allowed, and the
    /// report starts over.
    pub open spec fn spec_update(self) -> NesController {
        let held = if self.opposite_dpad {
            self.input
        } else {
            drop_opposites(self.input)
        };
        NesController {
            A: held & BUTTON_A != 0,
            B: held & BUTTON_B != 0,
            Select: held & BUTTON_SELECT != 0,
            Start: held & BUTTON_START != 0,
            DPad: (
                held & BUTTON_UP != 0,
                held & BUTTON_DOWN != 0,
                held & BUTTON_LEFT != 0,
                held & BUTTON_RIGHT != 0,
            ),
            report_count: 0,
            ..self
        }
    }

    /// The pad after a write. Only the strobe register is listened to: bit 0
    /// of the value is the new strobe, and a strobe that falls latches the
    /// buttons and starts the report over.
    pub open spec fn spec_write(self, addr: int, value: u8) -> NesController {
        if addr == 0x4016 {
            let s = value & 1 == 1;
            if self.strobe && !s {
                NesController { strobe: s, output: self.buttons(), report_count: 0, ..self }
            } else {
                NesController { strobe: s, ..self }
            }
        } else {
            self
        }
    }

    /// What a read of the pad's own port gives, and the pad after it. Under
    /// strobe it is button A as held now. Else it is the next bit of the
    /// latched byte, and 1 once all eight have been read.
    pub open spec fn spec_report(self) -> (u8, NesController) {
        if self.strobe {
            (if self.A { 1u8 } else { 0u8 }, NesController { report_count: 0, ..self })
        } else if self.report_count < 8 {
            (
                (self.output >> self.report_count) & 1,
                NesController { report_count: (self.report_count + 1) as u8, ..self },
            )
        } else {
            (1u8, self)
        }
    }

    /// What a read at `addr` gives, and the pad after it: the report on the
    /// pad's own port, 0 elsewhere.
    pub open spec fn spec_read(self, addr: int) -> (u8, NesController) {
        if addr == self.port_addr() {
            self.spec_report()
        } else {
            (0u8, self)
        }
    }

    /// A pad on port `port` (even: port 1, odd: port 2) with nothing held.
    pub fn new(port: usize) -> (r: Self)
        ensures
            r == (NesController {
                A: false,
                B: false,
                Start: false,
                Select: false,
                DPad: (false, false, false, false),
                opposite_dpad: false,
                input: 0,
                output: 0,
                port,
                report_count: 0,
                strobe: false,
            }),
    {
        Self {
            A: false,
            B: false,
            Start: false,
            Select: false,
            DPad: (false, false, false, false),
            opposite_dpad: false,
            input: 0x00,
            output: 0x00,
            port,
            report_count: 0,
            strobe: false,
        }
    }

    /// Allows or forbids opposite directions held together.
    pub fn set_opposite_dpad(&mut self, v: bool)
        ensures
            *final(self) == (NesController { opposite_dpad: v, ..*old(self) }),
    {
        self.opposite_dpad = v;
    }

    /// Tells the pad which buttons the host sees held. They count from the
    /// next `update` on.
    pub fn set_input(&mut self, held: u8)
        ensures
            *final(self) == (NesController { input: held, ..*old(self) }),
    {
        self.input = held;
    }

    /// Whether any direction is held.
    pub fn dpad_active(&self) -> (b: bool)
        ensures
            b == (self.DPad.0 || self.DPad.1 || self.DPad.2 || self.DPad.3),
    {
        self.DPad.0 || self.DPad.1 || self.DPad.2 || self.DPad.3
    }

    /// The buttons held, as a byte.
    pub fn held(&self) -> (b: u8)
        ensures
            b == self.buttons(),
    {
        (if self.A { BUTTON_A } else { 0 }) | (if self.B { BUTTON_B } else { 0 }) | (if self.Select {
            BUTTON_SELECT
        } else {
            0
        }) | (if self.Start { BUTTON_START } else { 0 }) | (if self.DPad.0 { BUTTON_UP } else { 0 })
            | (if self.DPad.1 { BUTTON_DOWN } else { 0 }) | (if self.DPad.2 {
            BUTTON_LEFT
        } else {
            0
        }) | (if self.DPad.3 { BUTTON_RIGHT } else { 0 })
    }

    fn set_strobe(&mut self, value: bool)
        ensures
            *final(self) == (if old(self).strobe && !value {
                NesController {
                    strobe: value,
                    output: old(self).buttons(),
                    report_count: 0,
                    ..*old(self)
                }
            } else {
                NesController { strobe: value, ..*old(self) }
            }),
    {
        if self.strobe && !value {
            self.output = self.held();
            self.report_count = 0;
        }
        self.strobe = value;
    }

    fn port_report(&mut self) -> (report: u8)
        ensures
            (report, *final(self)) == old(self).spec_report(),
    {
        if self.strobe {
            self.report_count = 0;
            if self.A {
                1
            } else {
                0
            }
        } else if self.report_count < 8 {
            let bit: u8 = (self.output >> self.report_count) & 1;
            self.report_count += 1;
            bit
        } else {
            1
        }
    }
}

impl Controller for NesController {
    fn update(&mut self)
        ensures
            *final(self) == old(self).spec_update(),
    {
        let mut held: u8 = self.input;
        if !self.opposite_dpad {
            if held & BUTTON_UP != 0 && held & BUTTON_DOWN != 0 {
                held = held & !BUTTON_DOWN;
            }
            if held & BUTTON_LEFT != 0 && held & BUTTON_RIGHT != 0 {
                held = held & !BUTTON_RIGHT;
            }
        }
        self.A = held & BUTTON_A != 0;
        self.B = held & BUTTON_B != 0;
        self.Select = held & BUTTON_SELECT != 0;
        self.Start = held & BUTTON_START != 0;
        self.DPad = (
            held & BUTTON_UP != 0,
            held & BUTTON_DOWN != 0,
            held & BUTTON_LEFT != 0,
            held & BUTTON_RIGHT != 0,
        );
        self.report_count = 0;
    }

    fn read(&mut self, addr: usize) -> (value: u8)
        ensures
            (value, *final(self)) == old(self).spec_read(addr as int),
    {
        let port_addr: usize = if self.port % 2 == 0 {
            PORT1_ADDR
        } else {
            PORT2_ADDR
        };
        if addr == port_addr {
            self.port_report()
        } else {
            0
        }
    }

    fn write(&mut self, addr: usize, value: u8)
        ensures
            *final(self) == old(self).spec_write(addr as int, value),
    {
        if addr == PORT1_ADDR {
            self.set_strobe(value & 1 == 1);
        }
    }
}

} // verus!
