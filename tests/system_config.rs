use lpc82x_hal::pmu::{PMU, LOW_POWER_HZ};
use lpc82x_hal::swm::{FixedFunction, MovableFunction, NUM_PINASSIGN, SWM, UNASSIGNED};
use lpc82x_hal::syscon::{
    AnalogPeripheral, IrcDerivedClock, Peripheral, ResetPeripheral, UartClkDiv, UartFrgDiv,
    UartFrgMult, BOD, FLASH, MTB, RAM0_1, ROM, SYSCON, SYSOSC, SYSPLL, UARTFRG,
};

#[test]
fn clock_gates_set_and_clear_their_bit() {
    let mut syscon = SYSCON::new(0, 0, 0, 0, 0, 0);
    syscon.api.enable_clock(&Peripheral::I2c0);
    assert_eq!(syscon.api.sysahbclkctrl, 1 << 5);
    syscon.api.enable_clock(&ROM::new());
    syscon.api.enable_clock(&RAM0_1::new());
    syscon.api.enable_clock(&FLASH::new());
    syscon.api.enable_clock(&MTB::new());
    assert_eq!(syscon.api.sysahbclkctrl, (1 << 5) | (1 << 1) | (1 << 2) | (1 << 4) | (1 << 26));
    syscon.api.disable_clock(&Peripheral::I2c0);
    assert_eq!(syscon.api.sysahbclkctrl, (1 << 1) | (1 << 2) | (1 << 4) | (1 << 26));
    syscon.api.enable_clock(&Peripheral::Dma);
    assert_eq!(syscon.api.sysahbclkctrl & (1 << 29), 1 << 29);
}

#[test]
fn reset_and_power_controls() {
    let mut syscon = SYSCON::new(0, 0xffff_ffff, 0, 0, 0, 0);
    syscon.api.assert_reset(&ResetPeripheral::I2c0);
    assert_eq!(syscon.api.presetctrl, !(1 << 6));
    syscon.api.clear_reset(&ResetPeripheral::I2c0);
    syscon.api.assert_reset(&UARTFRG::new());
    assert_eq!(syscon.api.presetctrl, !(1 << 2));
    syscon.api.power_down(&BOD::new());
    syscon.api.power_down(&SYSOSC::new());
    syscon.api.power_down(&SYSPLL::new());
    syscon.api.power_down(&AnalogPeripheral::Cmp);
    assert_eq!(syscon.api.pdruncfg, (1 << 3) | (1 << 5) | (1 << 7) | (1 << 15));
    syscon.api.power_up(&SYSPLL::new());
    assert_eq!(syscon.api.pdruncfg, (1 << 3) | (1 << 5) | (1 << 15));
}

#[test]
fn uart_clock_and_irc_derived_clock() {
    let syscon = SYSCON::new(0, 0, 0b11, 2, 3, 4);
    assert_eq!((syscon.api.uartclkdiv, syscon.api.uartfrgmult, syscon.api.uartfrgdiv), (2, 3, 4));
    let SYSCON { mut api, irc, ircout } = syscon;
    api.set_uart_clock(&UartClkDiv(1), &UartFrgMult(22), &UartFrgDiv(0xff));
    assert_eq!((api.uartclkdiv, api.uartfrgmult, api.uartfrgdiv), (1, 22, 0xff));
    let mut clock = IrcDerivedClock::new();
    assert!(!clock.is_enabled());
    clock.enable(&mut api, irc, ircout);
    assert!(clock.is_enabled());
    assert_eq!(api.pdruncfg, 0);
    assert_eq!((api.uartclkdiv, api.uartfrgmult, api.uartfrgdiv), (1, 22, 0xff));
    assert_eq!(clock.hz(), 750_000);
}

#[test]
fn switch_matrix_assigns_movable_functions() {
    let mut syscon = SYSCON::new(0, 0, 0, 0, 0, 0);
    let mut swm = SWM::new([UNASSIGNED; NUM_PINASSIGN], 0x1b3);
    swm.api.init(&mut syscon.api);
    assert_eq!(syscon.api.sysahbclkctrl, 1 << 7);
    for i in 0..NUM_PINASSIGN {
        assert_eq!(swm.api.pinassign_register(i), UNASSIGNED);
    }
    swm.api.assign(MovableFunction::U0Txd, 4);
    swm.api.assign(MovableFunction::U0Cts, 12);
    assert_eq!(swm.api.pinassign_register(0), 0x0cff_ff04);
    swm.api.assign(MovableFunction::GpioIntBmat, 0x11);
    assert_eq!(swm.api.pinassign_register(11), 0x11ff_ffff);
    swm.api.assign(MovableFunction::I2c1Scl, 0x0a);
    assert_eq!(swm.api.pinassign_register(9), 0xff0a_ffff);
    swm.api.enable_fixed_function(FixedFunction::I2c0Sda);
    swm.api.disable_fixed_function(FixedFunction::Swclk);
    assert_eq!(swm.api.pinenable0(), (0x1b3 & !(1 << 11)) | (1 << 4));
}

#[test]
fn switch_matrix_starts_from_hardware_values() {
    let mut current = [UNASSIGNED; NUM_PINASSIGN];
    current[0] = 0xffff_0304;
    current[11] = 0x0102_0304;
    let mut syscon = SYSCON::new(0, 0, 0, 0, 0, 0);
    let mut swm = SWM::new(current, 0);
    assert_eq!(swm.api.pinassign_register(0), 0xffff_0304);
    assert_eq!(swm.api.pinassign_register(11), 0x0102_0304);
    swm.api.init(&mut syscon.api);
    swm.api.assign(MovableFunction::U0Rts, 9);
    assert_eq!(swm.api.pinassign_register(0), 0xff09_0304);
    assert_eq!(swm.api.pinassign_register(11), 0x0102_0304);
}

#[test]
fn clock_changes_keep_the_uart_clock() {
    let mut syscon = SYSCON::new(0, 0, 0, 7, 8, 9);
    let mut swm = SWM::new([UNASSIGNED; NUM_PINASSIGN], 0);
    swm.api.init(&mut syscon.api);
    syscon.api.enable_clock(&Peripheral::I2c0);
    syscon.api.power_down(&BOD::new());
    assert_eq!((syscon.api.uartclkdiv, syscon.api.uartfrgmult, syscon.api.uartfrgdiv), (7, 8, 9));
}

#[test]
fn pmu_sleep_and_low_power_clock() {
    let parts = PMU::new(0b101, 0).split();
    let mut handle = parts.handle;
    let mut lpc = parts.low_power_clock;
    let mut scr: u32 = 0b110;
    handle.enter_sleep_mode(&mut scr);
    assert_eq!(handle.pcon, 0);
    assert_eq!(scr, 0b010);
    assert!(!lpc.is_enabled());
    lpc.enable(&mut handle);
    assert_eq!(handle.dpdctrl, 1 << 2);
    assert!(lpc.is_enabled());
    lpc.disable(&mut handle);
    assert_eq!(handle.dpdctrl, 0);
    assert_eq!(lpc.hz(), LOW_POWER_HZ);
    assert_eq!(lpc.hz(), 10_000);
}
