//! System configuration: peripheral clock gating, peripheral reset, analog
//! power control and the USART clock.
//!
//! `Api` holds the images of the SYSCON registers it manages. Each method
//! computes the new image; the caller writes it to the register.
use vstd::prelude::*;

verus! {

/// A bit set to one in `reg`.
pub open spec fn with_bit(reg: u32, bit: u32) -> u32 {
    reg | (1u32 << bit)
}

/// A bit cleared to zero in `reg`.
pub open spec fn without_bit(reg: u32, bit: u32) -> u32 {
    reg & !(1u32 << bit)
}

/// Whether a bit of `reg` is one.
pub open spec fn bit_is_set(reg: u32, bit: u32) -> bool {
    (reg >> bit) & 1u32 == 1u32
}

/// Implemented by everything whose clock can be gated in SYSAHBCLKCTRL.
pub trait ClockControl {
    spec fn clock_bit_spec(&self) -> u32;

    /// The bit of SYSAHBCLKCTRL that gates this clock.
    fn clock_bit(&self) -> (r: u32)
        ensures
            r == self.clock_bit_spec(),
            r < 32,
    ;
}

/// Implemented by everything that can be held in reset through PRESETCTRL.
pub trait ResetControl {
    spec fn reset_bit_spec(&self) -> u32;

    /// The bit of PRESETCTRL that holds this block in reset while zero.
    fn reset_bit(&self) -> (r: u32)
        ensures
            r == self.reset_bit_spec(),
            r < 32,
    ;
}

/// Implemented by analog blocks whose power is controlled in PDRUNCFG.
pub trait AnalogBlock {
    spec fn power_bit_spec(&self) -> u32;

    /// The bit of PDRUNCFG that powers this block down while one.
    fn power_bit(&self) -> (r: u32)
        ensures
            r == self.power_bit_spec(),
            r < 32,
    ;
}

/// Main API of the SYSCON peripheral: the register images it manages.
#[derive(Debug)]
pub struct Api {
    pub sysahbclkctrl: u32,
    pub presetctrl: u32,
    pub pdruncfg: u32,
    pub uartclkdiv: u8,
    pub uartfrgmult: u8,
    pub uartfrgdiv: u8,
}

/// Entry point to the SYSCON API: the register images, and the handles to
/// the IRC and its output, which only this API hands out.
#[derive(Debug)]
pub struct SYSCON {
    pub api: Api,
    pub irc: IRC,
    pub ircout: IRCOUT,
}

impl SYSCON {
    /// Takes over SYSCON, starting from the register values read from the
    /// hardware.
    pub fn new(
        sysahbclkctrl: u32,
        presetctrl: u32,
        pdruncfg: u32,
        uartclkdiv: u8,
        uartfrgmult: u8,
        uartfrgdiv: u8,
    ) -> (r: SYSCON)
        ensures
            r.api.sysahbclkctrl == sysahbclkctrl,
            r.api.presetctrl == presetctrl,
            r.api.pdruncfg == pdruncfg,
            r.api.uartclkdiv == uartclkdiv,
            r.api.uartfrgmult == uartfrgmult,
            r.api.uartfrgdiv == uartfrgdiv,
    {
        SYSCON {
            api: Api { sysahbclkctrl, presetctrl, pdruncfg, uartclkdiv, uartfrgmult, uartfrgdiv },
            irc: IRC::new(),
            ircout: IRCOUT::new(),
        }
    }
}

impl Api {
    /// Enables the clock of a peripheral; all other gates stay as they were.
    pub fn enable_clock<P: ClockControl>(&mut self, peripheral: &P)
        ensures
            final(self).sysahbclkctrl == with_bit(
                old(self).sysahbclkctrl,
                peripheral.clock_bit_spec(),
            ),
            final(self).presetctrl == old(self).presetctrl,
            final(self).pdruncfg == old(self).pdruncfg,
            final(self).uartclkdiv == old(self).uartclkdiv,
            final(self).uartfrgmult == old(self).uartfrgmult,
            final(self).uartfrgdiv == old(self).uartfrgdiv,
    {
        let b = peripheral.clock_bit();
        self.sysahbclkctrl = self.sysahbclkctrl | (1u32 << b);
    }

    /// Disables the clock of a peripheral; all other gates stay as they were.
    pub fn disable_clock<P: ClockControl>(&mut self, peripheral: &P)
        ensures
            final(self).sysahbclkctrl == without_bit(
                old(self).sysahbclkctrl,
                peripheral.clock_bit_spec(),
            ),
            final(self).presetctrl == old(self).presetctrl,
            final(self).pdruncfg == old(self).pdruncfg,
            final(self).uartclkdiv == old(self).uartclkdiv,
            final(self).uartfrgmult == old(self).uartfrgmult,
            final(self).uartfrgdiv == old(self).uartfrgdiv,
    {
        let b = peripheral.clock_bit();
        self.sysahbclkctrl = self.sysahbclkctrl & !(1u32 << b);
    }

    /// Holds a peripheral in reset (its PRESETCTRL bit cleared).
    pub fn assert_reset<P: ResetControl>(&mut self, peripheral: &P)
        ensures
            final(self).presetctrl == without_bit(
                old(self).presetctrl,
                peripheral.reset_bit_spec(),
            ),
            final(self).sysahbclkctrl == old(self).sysahbclkctrl,
            final(self).pdruncfg == old(self).pdruncfg,
            final(self).uartclkdiv == old(self).uartclkdiv,
            final(self).uartfrgmult == old(self).uartfrgmult,
            final(self).uartfrgdiv == old(self).uartfrgdiv,
    {
        let b = peripheral.reset_bit();
        self.presetctrl = self.presetctrl & !(1u32 << b);
    }

    /// Releases a peripheral from reset (its PRESETCTRL bit set).
    pub fn clear_reset<P: ResetControl>(&mut self, peripheral: &P)
        ensures
            final(self).presetctrl == with_bit(
                old(self).presetctrl,
                peripheral.reset_bit_spec(),
            ),
            final(self).sysahbclkctrl == old(self).sysahbclkctrl,
            final(self).pdruncfg == old(self).pdruncfg,
            final(self).uartclkdiv == old(self).uartclkdiv,
            final(self).uartfrgmult == old(self).uartfrgmult,
            final(self).uartfrgdiv == old(self).uartfrgdiv,
    {
        let b = peripheral.reset_bit();
        self.presetctrl = self.presetctrl | (1u32 << b);
    }

    /// Powers an analog block up (its PDRUNCFG bit cleared).
    pub fn power_up<P: AnalogBlock>(&mut self, peripheral: &P)
        ensures
            final(self).pdruncfg == without_bit(old(self).pdruncfg, peripheral.power_bit_spec()),
            final(self).sysahbclkctrl == old(self).sysahbclkctrl,
            final(self).presetctrl == old(self).presetctrl,
            final(self).uartclkdiv == old(self).uartclkdiv,
            final(self).uartfrgmult == old(self).uartfrgmult,
            final(self).uartfrgdiv == old(self).uartfrgdiv,
    {
        let b = peripheral.power_bit();
        self.pdruncfg = self.pdruncfg & !(1u32 << b);
    }

    /// Powers an analog block down (its PDRUNCFG bit set).
    pub fn power_down<P: AnalogBlock>(&mut self, peripheral: &P)
        ensures
            final(self).pdruncfg == with_bit(old(self).pdruncfg, peripheral.power_bit_spec()),
            final(self).sysahbclkctrl == old(self).sysahbclkctrl,
            final(self).presetctrl == old(self).presetctrl,
            final(self).uartclkdiv == old(self).uartclkdiv,
            final(self).uartfrgmult == old(self).uartfrgmult,
            final(self).uartfrgdiv == old(self).uartfrgdiv,
    {
        let b = peripheral.power_bit();
        self.pdruncfg = self.pdruncfg | (1u32 << b);
    }

    /// Sets the clock shared by all USARTs: the divider and the fractional
    /// generator's multiplier and divider.
    pub fn set_uart_clock(
        &mut self,
        uart_clk_div: &UartClkDiv,
        uart_frg_mult: &UartFrgMult,
        uart_frg_div: &UartFrgDiv,
    )
        ensures
            final(self).uartclkdiv == uart_clk_div.0,
            final(self).uartfrgmult == uart_frg_mult.0,
            final(self).uartfrgdiv == uart_frg_div.0,
            final(self).sysahbclkctrl == old(self).sysahbclkctrl,
            final(self).presetctrl == old(self).presetctrl,
            final(self).pdruncfg == old(self).pdruncfg,
    {
        self.uartclkdiv = uart_clk_div.0;
        self.uartfrgmult = uart_frg_mult.0;
        self.uartfrgdiv = uart_frg_div.0;
    }
}

/// After a clock is enabled it is on, and every other gate is as it was.
pub proof fn lemma_enable_clock_sets_only_its_bit(reg: u32, bit: u32)
    requires
        bit < 32,
    ensures
        bit_is_set(with_bit(reg, bit), bit),
        forall|other: u32|
            other < 32 && other != bit ==> bit_is_set(with_bit(reg, bit), other) == bit_is_set(
                reg,
                other,
            ),
{
    assert(((reg | (1u32 << bit)) >> bit) & 1u32 == 1u32) by (bit_vector)
        requires
            bit < 32,
    ;
    assert forall|other: u32| other < 32 && other != bit implies bit_is_set(
        with_bit(reg, bit),
        other,
    ) == bit_is_set(reg, other) by {
        assert((((reg | (1u32 << bit)) >> other) & 1u32 == 1u32) == (((reg >> other) & 1u32)
            == 1u32)) by (bit_vector)
            requires
                bit < 32,
                other < 32,
                other != bit,
        ;
    }
}

/// Frequency of the IRC-derived clock.
pub const IRC_DERIVED_HZ: u32 = 750_000;

/// The 750 kHz clock derived from the IRC, which can run the wake-up timer.
#[derive(Debug)]
pub struct IrcDerivedClock {
    enabled: bool,
}

impl IrcDerivedClock {
    pub closed spec fn spec_enabled(&self) -> bool {
        self.enabled
    }

    pub fn new() -> (r: IrcDerivedClock)
        ensures
            !r.spec_enabled(),
    {
        IrcDerivedClock { enabled: false }
    }

    pub fn is_enabled(&self) -> (r: bool)
        ensures
            r == self.spec_enabled(),
    {
        self.enabled
    }

    /// Enables the clock by powering up the IRC and its output. Both handles,
    /// which only `SYSCON::new` makes, are consumed, so that they cannot be
    /// used to power the blocks down again.
    pub fn enable(&mut self, syscon: &mut Api, irc: IRC, ircout: IRCOUT)
        requires
            !old(self).spec_enabled(),
        ensures
            final(self).spec_enabled(),
            final(syscon).pdruncfg == without_bit(without_bit(old(syscon).pdruncfg, 1), 0),
            final(syscon).sysahbclkctrl == old(syscon).sysahbclkctrl,
            final(syscon).presetctrl == old(syscon).presetctrl,
            final(syscon).uartclkdiv == old(syscon).uartclkdiv,
            final(syscon).uartfrgmult == old(syscon).uartfrgmult,
            final(syscon).uartfrgdiv == old(syscon).uartfrgdiv,
    {
        syscon.power_up(&irc);
        syscon.power_up(&ircout);
        self.enabled = true;
    }

    /// The clock's frequency in Hz.
    pub fn hz(&self) -> (r: u32)
        ensures
            r == IRC_DERIVED_HZ,
    {
        IRC_DERIVED_HZ
    }
}

/// UART clock divider value.
#[derive(Debug)]
pub struct UartClkDiv(pub u8);

/// UART fractional generator multiplier value.
#[derive(Debug)]
pub struct UartFrgMult(pub u8);

/// UART fractional generator divider value.
#[derive(Debug)]
pub struct UartFrgDiv(pub u8);

/// Brown-out detection.
#[derive(Debug)]
pub struct BOD(());

/// Flash memory.
#[derive(Debug)]
pub struct FLASH(());

/// The internal RC oscillator.
#[derive(Debug)]
pub struct IRC(());

/// The internal RC oscillator's output.
#[derive(Debug)]
pub struct IRCOUT(());

/// The Micro Trace Buffer.
#[derive(Debug)]
pub struct MTB(());

/// Random access memory.
#[allow(non_camel_case_types)]
#[derive(Debug)]
pub struct RAM0_1(());

/// Read-only memory.
#[derive(Debug)]
pub struct ROM(());

/// The system oscillator.
#[derive(Debug)]
pub struct SYSOSC(());

/// The system PLL.
#[derive(Debug)]
pub struct SYSPLL(());

/// The USART fractional baud rate generator.
#[derive(Debug)]
pub struct UARTFRG(());

impl BOD {
    pub fn new() -> BOD {
        BOD(())
    }
}

impl FLASH {
    pub fn new() -> FLASH {
        FLASH(())
    }
}

impl IRC {
    pub(crate) fn new() -> IRC {
        IRC(())
    }
}

impl IRCOUT {
    pub(crate) fn new() -> IRCOUT {
        IRCOUT(())
    }
}

impl MTB {
    pub fn new() -> MTB {
        MTB(())
    }
}

impl RAM0_1 {
    pub fn new() -> RAM0_1 {
        RAM0_1(())
    }
}

impl ROM {
    pub fn new() -> ROM {
        ROM(())
    }
}

impl SYSOSC {
    pub fn new() -> SYSOSC {
        SYSOSC(())
    }
}

impl SYSPLL {
    pub fn new() -> SYSPLL {
        SYSPLL(())
    }
}

impl UARTFRG {
    pub fn new() -> UARTFRG {
        UARTFRG(())
    }
}

/// Peripherals that are register blocks of their own, named for the clock,
/// reset and power controls.
#[derive(Clone, Copy, Debug, PartialEq, Eq, Structural)]
pub enum Peripheral {
    FlashCtrl,
    I2c0,
    GpioPort,
    Swm,
    Sct,
    Wkt,
    Mrt,
    Spi0,
    Spi1,
    Crc,
    Usart0,
    Usart1,
    Usart2,
    Wwdt,
    Iocon,
    Cmp,
    I2c1,
    I2c2,
    I2c3,
    Adc,
    Dma,
}

impl ClockControl for Peripheral {
    open spec fn clock_bit_spec(&self) -> u32 {
        match self {
            Peripheral::FlashCtrl => 3,
            Peripheral::I2c0 => 5,
            Peripheral::GpioPort => 6,
            Peripheral::Swm => 7,
            Peripheral::Sct => 8,
            Peripheral::Wkt => 9,
            Peripheral::Mrt => 10,
            Peripheral::Spi0 => 11,
            Peripheral::Spi1 => 12,
            Peripheral::Crc => 13,
            Peripheral::Usart0 => 14,
            Peripheral::Usart1 => 15,
            Peripheral::Usart2 => 16,
            Peripheral::Wwdt => 17,
            Peripheral::Iocon => 18,
            Peripheral::Cmp => 19,
            Peripheral::I2c1 => 21,
            Peripheral::I2c2 => 22,
            Peripheral::I2c3 => 23,
            Peripheral::Adc => 24,
            Peripheral::Dma => 29,
        }
    }

    fn clock_bit(&self) -> (r: u32) {
        match self {
            Peripheral::FlashCtrl => 3,
            Peripheral::I2c0 => 5,
            Peripheral::GpioPort => 6,
            Peripheral::Swm => 7,
            Peripheral::Sct => 8,
            Peripheral::Wkt => 9,
            Peripheral::Mrt => 10,
            Peripheral::Spi0 => 11,
            Peripheral::Spi1 => 12,
            Peripheral::Crc => 13,
            Peripheral::Usart0 => 14,
            Peripheral::Usart1 => 15,
            Peripheral::Usart2 => 16,
            Peripheral::Wwdt => 17,
            Peripheral::Iocon => 18,
            Peripheral::Cmp => 19,
            Peripheral::I2c1 => 21,
            Peripheral::I2c2 => 22,
            Peripheral::I2c3 => 23,
            Peripheral::Adc => 24,
            Peripheral::Dma => 29,
        }
    }
}

impl ClockControl for ROM {
    open spec fn clock_bit_spec(&self) -> u32 {
        1
    }

    fn clock_bit(&self) -> (r: u32) {
        1
    }
}

impl ClockControl for RAM0_1 {
    open spec fn clock_bit_spec(&self) -> u32 {
        2
    }

    fn clock_bit(&self) -> (r: u32) {
        2
    }
}

impl ClockControl for FLASH {
    open spec fn clock_bit_spec(&self) -> u32 {
        4
    }

    fn clock_bit(&self) -> (r: u32) {
        4
    }
}

impl ClockControl for MTB {
    open spec fn clock_bit_spec(&self) -> u32 {
        26
    }

    fn clock_bit(&self) -> (r: u32) {
        26
    }
}

impl ResetControl for UARTFRG {
    open spec fn reset_bit_spec(&self) -> u32 {
        2
    }

    fn reset_bit(&self) -> (r: u32) {
        2
    }
}

impl AnalogBlock for IRCOUT {
    open spec fn power_bit_spec(&self) -> u32 {
        0
    }

    fn power_bit(&self) -> (r: u32) {
        0
    }
}

impl AnalogBlock for IRC {
    open spec fn power_bit_spec(&self) -> u32 {
        1
    }

    fn power_bit(&self) -> (r: u32) {
        1
    }
}

impl AnalogBlock for FLASH {
    open spec fn power_bit_spec(&self) -> u32 {
        2
    }

    fn power_bit(&self) -> (r: u32) {
        2
    }
}

impl AnalogBlock for BOD {
    open spec fn power_bit_spec(&self) -> u32 {
        3
    }

    fn power_bit(&self) -> (r: u32) {
        3
    }
}

impl AnalogBlock for SYSOSC {
    open spec fn power_bit_spec(&self) -> u32 {
        5
    }

    fn power_bit(&self) -> (r: u32) {
        5
    }
}

impl AnalogBlock for SYSPLL {
    open spec fn power_bit_spec(&self) -> u32 {
        7
    }

    fn power_bit(&self) -> (r: u32) {
        7
    }
}

/// Register-block peripherals that can be held in reset.
#[derive(Clone, Copy, Debug, PartialEq, Eq, Structural)]
pub enum ResetPeripheral {
    Spi0,
    Spi1,
    Usart0,
    Usart1,
    Usart2,
    I2c0,
    Mrt,
    Sct,
    Wkt,
    GpioPort,
    FlashCtrl,
    Cmp,
}

impl ResetControl for ResetPeripheral {
    open spec fn reset_bit_spec(&self) -> u32 {
        match self {
            ResetPeripheral::Spi0 => 0,
            ResetPeripheral::Spi1 => 1,
            ResetPeripheral::Usart0 => 3,
            ResetPeripheral::Usart1 => 4,
            ResetPeripheral::Usart2 => 5,
            ResetPeripheral::I2c0 => 6,
            ResetPeripheral::Mrt => 7,
            ResetPeripheral::Sct => 8,
            ResetPeripheral::Wkt => 9,
            ResetPeripheral::GpioPort => 10,
            ResetPeripheral::FlashCtrl => 11,
            ResetPeripheral::Cmp => 12,
        }
    }

    fn reset_bit(&self) -> (r: u32) {
        match self {
            ResetPeripheral::Spi0 => 0,
            ResetPeripheral::Spi1 => 1,
            ResetPeripheral::Usart0 => 3,
            ResetPeripheral::Usart1 => 4,
            ResetPeripheral::Usart2 => 5,
            ResetPeripheral::I2c0 => 6,
            ResetPeripheral::Mrt => 7,
            ResetPeripheral::Sct => 8,
            ResetPeripheral::Wkt => 9,
            ResetPeripheral::GpioPort => 10,
            ResetPeripheral::FlashCtrl => 11,
            ResetPeripheral::Cmp => 12,
        }
    }
}

/// Register-block peripherals with an analog part whose power is controlled.
#[derive(Clone, Copy, Debug, PartialEq, Eq, Structural)]
pub enum AnalogPeripheral {
    Adc,
    Wwdt,
    Cmp,
}

impl AnalogBlock for AnalogPeripheral {
    open spec fn power_bit_spec(&self) -> u32 {
        match self {
            AnalogPeripheral::Adc => 4,
            AnalogPeripheral::Wwdt => 6,
            AnalogPeripheral::Cmp => 15,
        }
    }

    fn power_bit(&self) -> (r: u32) {
        match self {
            AnalogPeripheral::Adc => 4,
            AnalogPeripheral::Wwdt => 6,
            AnalogPeripheral::Cmp => 15,
        }
    }
}

} // verus!
