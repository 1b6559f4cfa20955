//! The power management unit: sleep mode and the 10 kHz low-power clock.
//!
//! The types hold the images of the PCON and DPDCTRL registers. Entering
//! sleep computes the register values to write; executing the wait for
//! interrupt is left to the caller.
use vstd::prelude::*;

use crate::syscon::{with_bit, without_bit};

verus! {

/// The SLEEPDEEP bit of the system control register (SCR).
pub const SLEEPDEEP: u32 = 4;

/// The LPOSCEN bit of DPDCTRL, which runs the low-power oscillator.
pub const LPOSCEN_BIT: u32 = 2;

/// Frequency of the low-power clock.
pub const LOW_POWER_HZ: u32 = 10_000;

/// Entry point to the PMU API.
#[derive(Debug)]
pub struct PMU {
    pcon: u32,
    dpdctrl: u32,
}

/// The parts of the PMU API.
#[derive(Debug)]
pub struct Parts {
    pub handle: Handle,
    pub low_power_clock: LowPowerClock,
}

/// The handle to the PMU.
#[derive(Debug)]
pub struct Handle {
    pub pcon: u32,
    pub dpdctrl: u32,
}

/// The 10 kHz low-power clock.
#[derive(Debug)]
pub struct LowPowerClock {
    enabled: bool,
}

impl PMU {
    /// Takes over the PMU, from the register values read from the hardware.
    pub fn new(pcon: u32, dpdctrl: u32) -> (r: PMU)
        ensures
            r.spec_pcon() == pcon,
            r.spec_dpdctrl() == dpdctrl,
    {
        PMU { pcon, dpdctrl }
    }

    pub closed spec fn spec_pcon(&self) -> u32 {
        self.pcon
    }

    pub closed spec fn spec_dpdctrl(&self) -> u32 {
        self.dpdctrl
    }

    /// Gives up the API and returns the PCON and DPDCTRL values it holds.
    pub fn free(self) -> (r: (u32, u32))
        ensures
            r == (self.spec_pcon(), self.spec_dpdctrl()),
    {
        (self.pcon, self.dpdctrl)
    }

    /// Splits the API into the handle and the low-power clock, which starts
    /// disabled.
    pub fn split(self) -> (r: Parts)
        ensures
            r.handle.pcon == self.spec_pcon(),
            r.handle.dpdctrl == self.spec_dpdctrl(),
            !r.low_power_clock.spec_enabled(),
    {
        Parts { handle: Handle { pcon: self.pcon, dpdctrl: self.dpdctrl }, low_power_clock: LowPowerClock::new() }
    }
}

/// PCON with its power mode field (bits 0 to 2) set to the default mode,
/// which is sleep on wait for interrupt.
pub open spec fn sleep_pcon(pcon: u32) -> u32 {
    pcon & !7u32
}

/// SCR with SLEEPDEEP cleared.
pub open spec fn sleep_scr(scr: u32) -> u32 {
    scr & !SLEEPDEEP
}

impl Handle {
    /// Prepares regular sleep mode: the default power mode in PCON and
    /// SLEEPDEEP cleared in `scr`. The caller then writes both and waits for
    /// an interrupt.
    pub fn enter_sleep_mode(&mut self, scr: &mut u32)
        ensures
            final(self).pcon == sleep_pcon(old(self).pcon),
            final(self).dpdctrl == old(self).dpdctrl,
            *final(scr) == sleep_scr(*old(scr)),
    {
        self.pcon = self.pcon & !7u32;
        *scr = *scr & !SLEEPDEEP;
    }
}

impl LowPowerClock {
    pub closed spec fn spec_enabled(&self) -> bool {
        self.enabled
    }

    pub fn new() -> (r: LowPowerClock)
        ensures
            !r.spec_enabled(),
    {
        LowPowerClock { enabled: false }
    }

    pub fn is_enabled(&self) -> (r: bool)
        ensures
            r == self.spec_enabled(),
    {
        self.enabled
    }

    /// Enables the clock: LPOSCEN set in DPDCTRL.
    pub fn enable(&mut self, pmu: &mut Handle)
        requires
            !old(self).spec_enabled(),
        ensures
            final(self).spec_enabled(),
            final(pmu).dpdctrl == with_bit(old(pmu).dpdctrl, LPOSCEN_BIT),
            final(pmu).pcon == old(pmu).pcon,
    {
        pmu.dpdctrl = pmu.dpdctrl | (1u32 << LPOSCEN_BIT);
        self.enabled = true;
    }

    /// Disables the clock: LPOSCEN cleared in DPDCTRL.
    pub fn disable(&mut self, pmu: &mut Handle)
        requires
            old(self).spec_enabled(),
        ensures
            !final(self).spec_enabled(),
            final(pmu).dpdctrl == without_bit(old(pmu).dpdctrl, LPOSCEN_BIT),
            final(pmu).pcon == old(pmu).pcon,
    {
        pmu.dpdctrl = pmu.dpdctrl & !(1u32 << LPOSCEN_BIT);
        self.enabled = false;
    }

    /// The clock's frequency in Hz.
    pub fn hz(&self) -> (r: u32)
        ensures
            r == LOW_POWER_HZ,
    {
        LOW_POWER_HZ
    }
}

} // verus!
