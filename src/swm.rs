//! The switch matrix: which pin each movable function is routed to, and
//! which fixed functions are enabled.
//!
//! `Api` holds the images of the PINASSIGN and PINENABLE0 registers; each
//! method computes the new image, which the caller writes to the hardware.
use vstd::prelude::*;

use crate::syscon::{self, bit_is_set, with_bit, without_bit, Peripheral};

verus! {

/// Number of PINASSIGN registers, four movable functions in each.
pub const NUM_PINASSIGN: usize = 12;

/// Value of a PINASSIGN register with no function assigned.
pub const UNASSIGNED: u32 = 0xffff_ffff;

/// A function that can be routed to any pin.
#[derive(Clone, Copy, Debug, PartialEq, Eq, Structural)]
pub enum MovableFunction {
    U0Txd,
    U0Rxd,
    U0Rts,
    U0Cts,
    U0Sclk,
    U1Txd,
    U1Rxd,
    U1Rts,
    U1Cts,
    U1Sclk,
    U2Txd,
    U2Rxd,
    U2Rts,
    U2Cts,
    U2Sclk,
    Spi0Sck,
    Spi0Mosi,
    Spi0Miso,
    Spi0Ssel0,
    Spi0Ssel1,
    Spi0Ssel2,
    Spi0Ssel3,
    Spi1Sck,
    Spi1Mosi,
    Spi1Miso,
    Spi1Ssel0,
    Spi1Ssel1,
    SctPin0,
    SctPin1,
    SctPin2,
    SctPin3,
    SctOut0,
    SctOut1,
    SctOut2,
    SctOut3,
    SctOut4,
    SctOut5,
    I2c1Sda,
    I2c1Scl,
    I2c2Sda,
    I2c2Scl,
    I2c3Sda,
    I2c3Scl,
    AdcPintrig0,
    AdcPintrig1,
    AcmpO,
    Clkout,
    GpioIntBmat,
}

impl MovableFunction {
    /// Position of the function's field among all PINASSIGN fields.
    pub open spec fn index_spec(self) -> nat {
        match self {
            MovableFunction::U0Txd => 0,
            MovableFunction::U0Rxd => 1,
            MovableFunction::U0Rts => 2,
            MovableFunction::U0Cts => 3,
            MovableFunction::U0Sclk => 4,
            MovableFunction::U1Txd => 5,
            MovableFunction::U1Rxd => 6,
            MovableFunction::U1Rts => 7,
            MovableFunction::U1Cts => 8,
            MovableFunction::U1Sclk => 9,
            MovableFunction::U2Txd => 10,
            MovableFunction::U2Rxd => 11,
            MovableFunction::U2Rts => 12,
            MovableFunction::U2Cts => 13,
            MovableFunction::U2Sclk => 14,
            MovableFunction::Spi0Sck => 15,
            MovableFunction::Spi0Mosi => 16,
            MovableFunction::Spi0Miso => 17,
            MovableFunction::Spi0Ssel0 => 18,
            MovableFunction::Spi0Ssel1 => 19,
            MovableFunction::Spi0Ssel2 => 20,
            MovableFunction::Spi0Ssel3 => 21,
            MovableFunction::Spi1Sck => 22,
            MovableFunction::Spi1Mosi => 23,
            MovableFunction::Spi1Miso => 24,
            MovableFunction::Spi1Ssel0 => 25,
            MovableFunction::Spi1Ssel1 => 26,
            MovableFunction::SctPin0 => 27,
            MovableFunction::SctPin1 => 28,
            MovableFunction::SctPin2 => 29,
            MovableFunction::SctPin3 => 30,
            MovableFunction::SctOut0 => 31,
            MovableFunction::SctOut1 => 32,
            MovableFunction::SctOut2 => 33,
            MovableFunction::SctOut3 => 34,
            MovableFunction::SctOut4 => 35,
            MovableFunction::SctOut5 => 36,
            MovableFunction::I2c1Sda => 37,
            MovableFunction::I2c1Scl => 38,
            MovableFunction::I2c2Sda => 39,
            MovableFunction::I2c2Scl => 40,
            MovableFunction::I2c3Sda => 41,
            MovableFunction::I2c3Scl => 42,
            MovableFunction::AdcPintrig0 => 43,
            MovableFunction::AdcPintrig1 => 44,
            MovableFunction::AcmpO => 45,
            MovableFunction::Clkout => 46,
            MovableFunction::GpioIntBmat => 47,
        }
    }

    /// The PINASSIGN register that holds the function's field.
    pub open spec fn register_spec(self) -> int {
        self.index_spec() as int / 4
    }

    /// Where the function's field starts in its register.
    pub open spec fn shift_spec(self) -> u32 {
        (8 * (self.index_spec() % 4)) as u32
    }

    pub fn index(self) -> (r: usize)
        ensures
            r == self.index_spec(),
            r < 4 * NUM_PINASSIGN,
    {
        match self {
            MovableFunction::U0Txd => 0,
            MovableFunction::U0Rxd => 1,
            MovableFunction::U0Rts => 2,
            MovableFunction::U0Cts => 3,
            MovableFunction::U0Sclk => 4,
            MovableFunction::U1Txd => 5,
            MovableFunction::U1Rxd => 6,
            MovableFunction::U1Rts => 7,
            MovableFunction::U1Cts => 8,
            MovableFunction::U1Sclk => 9,
            MovableFunction::U2Txd => 10,
            MovableFunction::U2Rxd => 11,
            MovableFunction::U2Rts => 12,
            MovableFunction::U2Cts => 13,
            MovableFunction::U2Sclk => 14,
            MovableFunction::Spi0Sck => 15,
            MovableFunction::Spi0Mosi => 16,
            MovableFunction::Spi0Miso => 17,
            MovableFunction::Spi0Ssel0 => 18,
            MovableFunction::Spi0Ssel1 => 19,
            MovableFunction::Spi0Ssel2 => 20,
            MovableFunction::Spi0Ssel3 => 21,
            MovableFunction::Spi1Sck => 22,
            MovableFunction::Spi1Mosi => 23,
            MovableFunction::Spi1Miso => 24,
            MovableFunction::Spi1Ssel0 => 25,
            MovableFunction::Spi1Ssel1 => 26,
            MovableFunction::SctPin0 => 27,
            MovableFunction::SctPin1 => 28,
            MovableFunction::SctPin2 => 29,
            MovableFunction::SctPin3 => 30,
            MovableFunction::SctOut0 => 31,
            MovableFunction::SctOut1 => 32,
            MovableFunction::SctOut2 => 33,
            MovableFunction::SctOut3 => 34,
            MovableFunction::SctOut4 => 35,
            MovableFunction::SctOut5 => 36,
            MovableFunction::I2c1Sda => 37,
            MovableFunction::I2c1Scl => 38,
            MovableFunction::I2c2Sda => 39,
            MovableFunction::I2c2Scl => 40,
            MovableFunction::I2c3Sda => 41,
            MovableFunction::I2c3Scl => 42,
            MovableFunction::AdcPintrig0 => 43,
            MovableFunction::AdcPintrig1 => 44,
            MovableFunction::AcmpO => 45,
            MovableFunction::Clkout => 46,
            MovableFunction::GpioIntBmat => 47,
        }
    }
}

/// A function bound to one pin, switched on or off in PINENABLE0.
#[derive(Clone, Copy, Debug, PartialEq, Eq, Structural)]
pub enum FixedFunction {
    AcmpI1,
    AcmpI2,
    AcmpI3,
    AcmpI4,
    Swclk,
    Swdio,
    Xtalin,
    Xtalout,
    Resetn,
    Clkin,
    Vddcmp,
    I2c0Sda,
    I2c0Scl,
    Adc0,
    Adc1,
    Adc2,
    Adc3,
    Adc4,
    Adc5,
    Adc6,
    Adc7,
    Adc8,
    Adc9,
    Adc10,
    Adc11,
}

impl FixedFunction {
    /// The function's bit in PINENABLE0; clear means enabled.
    pub open spec fn bit_spec(self) -> u32 {
        match self {
            FixedFunction::AcmpI1 => 0,
            FixedFunction::AcmpI2 => 1,
            FixedFunction::AcmpI3 => 2,
            FixedFunction::AcmpI4 => 3,
            FixedFunction::Swclk => 4,
            FixedFunction::Swdio => 5,
            FixedFunction::Xtalin => 6,
            FixedFunction::Xtalout => 7,
            FixedFunction::Resetn => 8,
            FixedFunction::Clkin => 9,
            FixedFunction::Vddcmp => 10,
            FixedFunction::I2c0Sda => 11,
            FixedFunction::I2c0Scl => 12,
            FixedFunction::Adc0 => 13,
            FixedFunction::Adc1 => 14,
            FixedFunction::Adc2 => 15,
            FixedFunction::Adc3 => 16,
            FixedFunction::Adc4 => 17,
            FixedFunction::Adc5 => 18,
            FixedFunction::Adc6 => 19,
            FixedFunction::Adc7 => 20,
            FixedFunction::Adc8 => 21,
            FixedFunction::Adc9 => 22,
            FixedFunction::Adc10 => 23,
            FixedFunction::Adc11 => 24,
        }
    }

    pub fn bit(self) -> (r: u32)
        ensures
            r == self.bit_spec(),
            r < 32,
    {
        match self {
            FixedFunction::AcmpI1 => 0,
            FixedFunction::AcmpI2 => 1,
            FixedFunction::AcmpI3 => 2,
            FixedFunction::AcmpI4 => 3,
            FixedFunction::Swclk => 4,
            FixedFunction::Swdio => 5,
            FixedFunction::Xtalin => 6,
            FixedFunction::Xtalout => 7,
            FixedFunction::Resetn => 8,
            FixedFunction::Clkin => 9,
            FixedFunction::Vddcmp => 10,
            FixedFunction::I2c0Sda => 11,
            FixedFunction::I2c0Scl => 12,
            FixedFunction::Adc0 => 13,
            FixedFunction::Adc1 => 14,
            FixedFunction::Adc2 => 15,
            FixedFunction::Adc3 => 16,
            FixedFunction::Adc4 => 17,
            FixedFunction::Adc5 => 18,
            FixedFunction::Adc6 => 19,
            FixedFunction::Adc7 => 20,
            FixedFunction::Adc8 => 21,
            FixedFunction::Adc9 => 22,
            FixedFunction::Adc10 => 23,
            FixedFunction::Adc11 => 24,
        }
    }
}

/// `reg` with its byte at `shift` replaced by `pin`.
pub open spec fn with_field(reg: u32, shift: u32, pin: u8) -> u32 {
    (reg & !(0xffu32 << shift)) | ((pin as u32) << shift)
}

/// The byte of `reg` at `shift`.
pub open spec fn field(reg: u32, shift: u32) -> u32 {
    (reg >> shift) & 0xffu32
}

/// Main API of the switch matrix.
#[derive(Debug)]
pub struct Api {
    initialized: bool,
    pinassign: Vec<u32>,
    pinenable0: u32,
}

/// Entry point to the switch matrix API.
#[derive(Debug)]
pub struct SWM {
    pub api: Api,
}

impl SWM {
    /// Takes over the switch matrix, from the PINASSIGN and PINENABLE0
    /// values read from the hardware. It must be initialized before use.
    pub fn new(pinassign: [u32; NUM_PINASSIGN], pinenable0: u32) -> (r: SWM)
        ensures
            r.api.wf(),
            !r.api.spec_initialized(),
            r.api.pinassign() == pinassign@,
            r.api.spec_pinenable0() == pinenable0,
    {
        SWM { api: Api::new(pinassign, pinenable0) }
    }
}

impl Api {
    pub closed spec fn wf(&self) -> bool {
        self.pinassign@.len() == NUM_PINASSIGN
    }

    pub closed spec fn spec_initialized(&self) -> bool {
        self.initialized
    }

    /// The PINASSIGN register images.
    pub closed spec fn pinassign(&self) -> Seq<u32> {
        self.pinassign@
    }

    pub closed spec fn spec_pinenable0(&self) -> u32 {
        self.pinenable0
    }

    /// The pin a movable function is routed to (0xff: none).
    pub open spec fn pin_of(&self, f: MovableFunction) -> u32 {
        field(self.pinassign()[f.register_spec()], f.shift_spec())
    }

    pub fn new(pinassign: [u32; NUM_PINASSIGN], pinenable0: u32) -> (r: Api)
        ensures
            r.wf(),
            !r.spec_initialized(),
            r.pinassign() == pinassign@,
            r.spec_pinenable0() == pinenable0,
    {
        let mut regs: Vec<u32> = Vec::new();
        let mut i: usize = 0;
        while i < NUM_PINASSIGN
            invariant
                i <= NUM_PINASSIGN,
                pinassign@.len() == NUM_PINASSIGN,
                regs@ == pinassign@.subrange(0, i as int),
            decreases NUM_PINASSIGN - i,
        {
            regs.push(pinassign[i]);
            i = i + 1;
            proof {
                assert(regs@ =~= pinassign@.subrange(0, i as int));
            }
        }
        proof {
            assert(regs@ =~= pinassign@);
        }
        Api { initialized: false, pinassign: regs, pinenable0 }
    }

    /// Initializes the switch matrix by enabling its clock.
    pub fn init(&mut self, syscon: &mut syscon::Api)
        requires
            old(self).wf(),
        ensures
            final(self).wf(),
            final(self).spec_initialized(),
            final(self).pinassign() == old(self).pinassign(),
            final(self).spec_pinenable0() == old(self).spec_pinenable0(),
            final(syscon).sysahbclkctrl == with_bit(old(syscon).sysahbclkctrl, 7),
            final(syscon).presetctrl == old(syscon).presetctrl,
            final(syscon).pdruncfg == old(syscon).pdruncfg,
            final(syscon).uartclkdiv == old(syscon).uartclkdiv,
            final(syscon).uartfrgmult == old(syscon).uartfrgmult,
            final(syscon).uartfrgdiv == old(syscon).uartfrgdiv,
    {
        syscon.enable_clock(&Peripheral::Swm);
        self.initialized = true;
    }

    pub fn pinassign_register(&self, i: usize) -> (r: u32)
        requires
            self.wf(),
            i < NUM_PINASSIGN,
        ensures
            r == self.pinassign()[i as int],
    {
        self.pinassign[i]
    }

    pub fn pinenable0(&self) -> (r: u32)
        ensures
            r == self.spec_pinenable0(),
    {
        self.pinenable0
    }

    /// Enables a fixed function (its PINENABLE0 bit cleared).
    pub fn enable_fixed_function(&mut self, f: FixedFunction)
        requires
            old(self).wf(),
            old(self).spec_initialized(),
        ensures
            final(self).wf(),
            final(self).spec_initialized(),
            final(self).pinassign() == old(self).pinassign(),
            final(self).spec_pinenable0() == without_bit(old(self).spec_pinenable0(), f.bit_spec()),
    {
        let b = f.bit();
        self.pinenable0 = self.pinenable0 & !(1u32 << b);
    }

    /// Disables a fixed function (its PINENABLE0 bit set).
    pub fn disable_fixed_function(&mut self, f: FixedFunction)
        requires
            old(self).wf(),
            old(self).spec_initialized(),
        ensures
            final(self).wf(),
            final(self).spec_initialized(),
            final(self).pinassign() == old(self).pinassign(),
            final(self).spec_pinenable0() == with_bit(old(self).spec_pinenable0(), f.bit_spec()),
    {
        let b = f.bit();
        self.pinenable0 = self.pinenable0 | (1u32 << b);
    }

    /// Routes a movable function to `pin`: its field in PINASSIGN is
    /// replaced and every other field is kept.
    pub fn assign(&mut self, f: MovableFunction, pin: u8)
        requires
            old(self).wf(),
            old(self).spec_initialized(),
        ensures
            final(self).wf(),
            final(self).spec_initialized(),
            final(self).spec_pinenable0() == old(self).spec_pinenable0(),
            final(self).pinassign() == old(self).pinassign().update(
                f.register_spec(),
                with_field(old(self).pinassign()[f.register_spec()], f.shift_spec(), pin),
            ),
            final(self).pin_of(f) == pin,
    {
        let k = f.index();
        let reg = k / 4;
        let shift = 8 * (k % 4) as u32;
        let old_value = self.pinassign[reg];
        let value = (old_value & !(0xffu32 << shift)) | ((pin as u32) << shift);
        proof {
            lemma_field_written(old_value, shift, pin);
        }
        self.pinassign.set(reg, value);
    }
}

/// A byte written into a register reads back as written, and the other
/// bytes keep their values.
pub proof fn lemma_field_written(reg: u32, shift: u32, pin: u8)
    requires
        shift == 0 || shift == 8 || shift == 16 || shift == 24,
    ensures
        field(with_field(reg, shift, pin), shift) == pin as u32,
        forall|other: u32|
            (other == 0 || other == 8 || other == 16 || other == 24) && other != shift ==> field(
                with_field(reg, shift, pin),
                other,
            ) == field(reg, other),
{
    let p = pin as u32;
    assert(p < 256);
    assert((((reg & !(0xffu32 << shift)) | (p << shift)) >> shift) & 0xffu32 == p) by (bit_vector)
        requires
            p < 256,
            shift == 0 || shift == 8 || shift == 16 || shift == 24,
    ;
    assert forall|other: u32|
        (other == 0 || other == 8 || other == 16 || other == 24) && other != shift implies field(
        with_field(reg, shift, pin),
        other,
    ) == field(reg, other) by {
        assert((((reg & !(0xffu32 << shift)) | (p << shift)) >> other) & 0xffu32 == (reg >> other)
            & 0xffu32) by (bit_vector)
            requires
                p < 256,
                shift == 0 || shift == 8 || shift == 16 || shift == 24,
                other == 0 || other == 8 || other == 16 || other == 24,
                other != shift,
        ;
    }
}

} // verus!
