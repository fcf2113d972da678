//! Configuring the system clock sources.
//!
//! An instance of `GenericClockController` is typically needed before most
//! peripherals can be set up. It owns the generic clock controller block:
//! twelve clock generators, each dividing one of the chip's oscillators,
//! and one peripheral clock channel per clock sink. Configuring a channel
//! yields a typed token (for example [`Tc2Tc3Clock`]) that proves at
//! compile time that the peripheral's clock is running and carries its
//! effective frequency. Each channel can be claimed once; a second claim
//! reports `None`.

use vstd::prelude::*;

use crate::periph::Dpll;
use crate::periph::GCLK;
use crate::periph::GenCtrl;
use crate::periph::MCLK;
use crate::periph::NVMCTRL;
use crate::periph::OSC32KCTRL;
use crate::periph::OSCCTRL;
use crate::periph::PchCtrl;
use crate::periph::DPLL_REFCLK_GCLK;
use crate::periph::RTCSEL_ULP1K;
use crate::periph::RTCSEL_XOSC1K;
use crate::time::Hertz;

verus! {

/// The frequency of the 48 MHz source.
pub const OSC48M_FREQ: u32 = 48_000_000;

/// The frequency of the 32 kHz source.
pub const OSC32K_FREQ: u32 = 32_768;

/// The frequency of the 120 MHz source.
pub const OSC120M_FREQ: u32 = 120_000_000;

/// A clock generator of the generic clock controller block.
#[allow(non_camel_case_types)]
#[derive(Clone, Copy, PartialEq, Eq, Structural, Debug)]
pub enum ClockGenId {
    GCLK0,
    GCLK1,
    GCLK2,
    GCLK3,
    GCLK4,
    GCLK5,
    GCLK6,
    GCLK7,
    GCLK8,
    GCLK9,
    GCLK10,
    GCLK11,
}

impl ClockGenId {
    /// The generator's index in the generator array.
    pub open spec fn spec_bits(self) -> u8 {
        match self {
            ClockGenId::GCLK0 => 0,
            ClockGenId::GCLK1 => 1,
            ClockGenId::GCLK2 => 2,
            ClockGenId::GCLK3 => 3,
            ClockGenId::GCLK4 => 4,
            ClockGenId::GCLK5 => 5,
            ClockGenId::GCLK6 => 6,
            ClockGenId::GCLK7 => 7,
            ClockGenId::GCLK8 => 8,
            ClockGenId::GCLK9 => 9,
            ClockGenId::GCLK10 => 10,
            ClockGenId::GCLK11 => 11,
        }
    }

    pub fn bits(self) -> (r: u8)
        ensures
            r == self.spec_bits(),
            r < 12,
    {
        match self {
            ClockGenId::GCLK0 => 0,
            ClockGenId::GCLK1 => 1,
            ClockGenId::GCLK2 => 2,
            ClockGenId::GCLK3 => 3,
            ClockGenId::GCLK4 => 4,
            ClockGenId::GCLK5 => 5,
            ClockGenId::GCLK6 => 6,
            ClockGenId::GCLK7 => 7,
            ClockGenId::GCLK8 => 8,
            ClockGenId::GCLK9 => 9,
            ClockGenId::GCLK10 => 10,
            ClockGenId::GCLK11 => 11,
        }
    }
}

/// A clock source feeding a generator.
#[allow(non_camel_case_types)]
#[derive(Clone, Copy, PartialEq, Eq, Structural, Debug)]
pub enum ClockSource {
    XOSC0,
    XOSC1,
    GCLKIN,
    GCLKGEN1,
    OSCULP32K,
    XOSC32K,
    DFLL,
    DPLL0,
    DPLL1,
}

impl ClockSource {
    /// Encoding of the source in a generator's source field.
    pub open spec fn spec_bits(self) -> u8 {
        match self {
            ClockSource::XOSC0 => 0,
            ClockSource::XOSC1 => 1,
            ClockSource::GCLKIN => 2,
            ClockSource::GCLKGEN1 => 3,
            ClockSource::OSCULP32K => 4,
            ClockSource::XOSC32K => 5,
            ClockSource::DFLL => 6,
            ClockSource::DPLL0 => 7,
            ClockSource::DPLL1 => 8,
        }
    }

    pub fn bits(self) -> (r: u8)
        ensures
            r == self.spec_bits(),
    {
        match self {
            ClockSource::XOSC0 => 0,
            ClockSource::XOSC1 => 1,
            ClockSource::GCLKIN => 2,
            ClockSource::GCLKGEN1 => 3,
            ClockSource::OSCULP32K => 4,
            ClockSource::XOSC32K => 5,
            ClockSource::DFLL => 6,
            ClockSource::DPLL0 => 7,
            ClockSource::DPLL1 => 8,
        }
    }
}

/// The peripheral clock channels of the generic clock controller, in the
/// order of their channel indices.
#[allow(non_camel_case_types)]
#[derive(Clone, Copy, PartialEq, Eq, Structural, Debug)]
pub enum ClockId {
    DFLL48,
    FDPLL0,
    FDPLL1,
    SLOW_32K,
    EIC,
    FREQM_MSR,
    FREQM_REF,
    SERCOM0_CORE,
    SERCOM1_CORE,
    TC0_TC1,
    USB,
    EVSYS0,
    EVSYS1,
    EVSYS2,
    EVSYS3,
    EVSYS4,
    EVSYS5,
    EVSYS6,
    EVSYS7,
    EVSYS8,
    EVSYS9,
    EVSYS10,
    EVSYS11,
    SERCOM2_CORE,
    SERCOM3_CORE,
    TCC0_TCC1,
    TC2_TC3,
    CAN0,
    CAN1,
    TCC2_TCC3,
    TC4_TC5,
    PDEC,
    AC,
    CCL,
    SERCOM4_CORE,
    SERCOM5_CORE,
    SERCOM6_CORE,
    SERCOM7_CORE,
    TCC4,
    TC6_TC7,
    ADC0,
    ADC1,
    DAC,
    I2S0,
    I2S1,
    SDHC0,
    SDHC1,
    CM4_TRACE,
}

impl ClockId {
    /// The channel's index in the peripheral channel array.
    pub open spec fn spec_index(self) -> u8 {
        match self {
            ClockId::DFLL48 => 0,
            ClockId::FDPLL0 => 1,
            ClockId::FDPLL1 => 2,
            ClockId::SLOW_32K => 3,
            ClockId::EIC => 4,
            ClockId::FREQM_MSR => 5,
            ClockId::FREQM_REF => 6,
            ClockId::SERCOM0_CORE => 7,
            ClockId::SERCOM1_CORE => 8,
            ClockId::TC0_TC1 => 9,
            ClockId::USB => 10,
            ClockId::EVSYS0 => 11,
            ClockId::EVSYS1 => 12,
            ClockId::EVSYS2 => 13,
            ClockId::EVSYS3 => 14,
            ClockId::EVSYS4 => 15,
            ClockId::EVSYS5 => 16,
            ClockId::EVSYS6 => 17,
            ClockId::EVSYS7 => 18,
            ClockId::EVSYS8 => 19,
            ClockId::EVSYS9 => 20,
            ClockId::EVSYS10 => 21,
            ClockId::EVSYS11 => 22,
            ClockId::SERCOM2_CORE => 23,
            ClockId::SERCOM3_CORE => 24,
            ClockId::TCC0_TCC1 => 25,
            ClockId::TC2_TC3 => 26,
            ClockId::CAN0 => 27,
            ClockId::CAN1 => 28,
            ClockId::TCC2_TCC3 => 29,
            ClockId::TC4_TC5 => 30,
            ClockId::PDEC => 31,
            ClockId::AC => 32,
            ClockId::CCL => 33,
            ClockId::SERCOM4_CORE => 34,
            ClockId::SERCOM5_CORE => 35,
            ClockId::SERCOM6_CORE => 36,
            ClockId::SERCOM7_CORE => 37,
            ClockId::TCC4 => 38,
            ClockId::TC6_TC7 => 39,
            ClockId::ADC0 => 40,
            ClockId::ADC1 => 41,
            ClockId::DAC => 42,
            ClockId::I2S0 => 43,
            ClockId::I2S1 => 44,
            ClockId::SDHC0 => 45,
            ClockId::SDHC1 => 46,
            ClockId::CM4_TRACE => 47,
        }
    }

    pub fn index(self) -> (r: u8)
        ensures
            r == self.spec_index(),
            r < 48,
    {
        match self {
            ClockId::DFLL48 => 0,
            ClockId::FDPLL0 => 1,
            ClockId::FDPLL1 => 2,
            ClockId::SLOW_32K => 3,
            ClockId::EIC => 4,
            ClockId::FREQM_MSR => 5,
            ClockId::FREQM_REF => 6,
            ClockId::SERCOM0_CORE => 7,
            ClockId::SERCOM1_CORE => 8,
            ClockId::TC0_TC1 => 9,
            ClockId::USB => 10,
            ClockId::EVSYS0 => 11,
            ClockId::EVSYS1 => 12,
            ClockId::EVSYS2 => 13,
            ClockId::EVSYS3 => 14,
            ClockId::EVSYS4 => 15,
            ClockId::EVSYS5 => 16,
            ClockId::EVSYS6 => 17,
            ClockId::EVSYS7 => 18,
            ClockId::EVSYS8 => 19,
            ClockId::EVSYS9 => 20,
            ClockId::EVSYS10 => 21,
            ClockId::EVSYS11 => 22,
            ClockId::SERCOM2_CORE => 23,
            ClockId::SERCOM3_CORE => 24,
            ClockId::TCC0_TCC1 => 25,
            ClockId::TC2_TC3 => 26,
            ClockId::CAN0 => 27,
            ClockId::CAN1 => 28,
            ClockId::TCC2_TCC3 => 29,
            ClockId::TC4_TC5 => 30,
            ClockId::PDEC => 31,
            ClockId::AC => 32,
            ClockId::CCL => 33,
            ClockId::SERCOM4_CORE => 34,
            ClockId::SERCOM5_CORE => 35,
            ClockId::SERCOM6_CORE => 36,
            ClockId::SERCOM7_CORE => 37,
            ClockId::TCC4 => 38,
            ClockId::TC6_TC7 => 39,
            ClockId::ADC0 => 40,
            ClockId::ADC1 => 41,
            ClockId::DAC => 42,
            ClockId::I2S0 => 43,
            ClockId::I2S1 => 44,
            ClockId::SDHC0 => 45,
            ClockId::SDHC1 => 46,
            ClockId::CM4_TRACE => 47,
        }
    }
}

impl From<ClockId> for u8 {
    /// A clock channel converts to its channel index.
    fn from(clock: ClockId) -> Self {
        clock.index()
    }
}

impl vstd::std_specs::convert::FromSpecImpl<ClockId> for u8 {
    open spec fn obeys_from_spec() -> bool {
        true
    }

    open spec fn from_spec(clock: ClockId) -> Self {
        clock.spec_index()
    }
}

/// Represents a configured clock generator. Its primary purpose is to be
/// passed in to methods such as `GenericClockController::tc2_tc3` to
/// configure the clock for a peripheral.
pub struct GClock {
    gclk: ClockGenId,
    freq: Hertz,
}

impl GClock {
    /// The generator this token stands for, as seen by specifications.
    pub closed spec fn spec_gclk(&self) -> ClockGenId {
        self.gclk
    }

    /// The generator's effective frequency, as seen by specifications.
    pub closed spec fn spec_freq(&self) -> Hertz {
        self.freq
    }

    /// The generator's effective frequency.
    pub fn freq(&self) -> (r: Hertz)
        ensures
            r == self.spec_freq(),
    {
        self.freq
    }
}

struct State {
    gclk: GCLK,
}

impl State {
    spec fn wf(&self) -> bool {
        self.gclk.wf()
    }

    /// Reset the whole block and wait for the reset to complete.
    fn reset_gclk(&mut self)
        ensures
            final(self).wf(),
            final(self).gclk.genctrl@ == GCLK::spec_zero_gens(),
            final(self).gclk.pchctrl@ == GCLK::spec_zero_pchs(),
            final(self).gclk.syncbusy.target == false,
            final(self).gclk.syncbusy.lag == 0,
            final(self).gclk.syncbusy.observed == false,
            final(self).gclk.swrst.target == false,
            final(self).gclk.swrst.lag == 0,
            final(self).gclk.swrst.observed == false,
            final(self).gclk.sync_lag == old(self).gclk.sync_lag,
    {
        self.gclk.software_reset();
    }

    /// Spin until pending register writes have synchronized.
    fn wait_for_sync(&mut self)
        requires
            old(self).gclk.syncbusy.target == false,
        ensures
            final(self).gclk == (GCLK {
                syncbusy: old(self).gclk.syncbusy.spec_wait(false),
                ..old(self).gclk
            }),
    {
        self.gclk.syncbusy.wait_until(false);
    }

    /// Program a generator's divider and source and wait for the write to
    /// synchronize. The hardware constrains the division factor: only the
    /// second generator accepts factors of 256 and above.
    fn set_gclk_divider_and_source(
        &mut self,
        gclk: ClockGenId,
        divider: u16,
        src: ClockSource,
        improve_duty_cycle: bool,
    )
        requires
            old(self).wf(),
            gclk == ClockGenId::GCLK1 || divider < 256,
        ensures
            final(self).wf(),
            final(self).gclk == (GCLK {
                genctrl: final(self).gclk.genctrl,
                syncbusy: old(self).gclk.syncbusy.spec_pulse(old(self).gclk.sync_lag).spec_wait(
                    false,
                ),
                ..old(self).gclk
            }),
            final(self).gclk.genctrl@ == old(self).gclk.genctrl@.update(
                gclk.spec_bits() as int,
                GenCtrl {
                    src: src.spec_bits(),
                    div: divider,
                    divsel: false,
                    idc: improve_duty_cycle,
                    genen: true,
                    oe: true,
                    runstdby: false,
                },
            ),
    {
        let idx = gclk.bits() as usize;
        self.gclk.write_genctrl(
            idx,
            GenCtrl {
                src: src.bits(),
                div: divider,
                divsel: false,
                idc: improve_duty_cycle,
                genen: true,
                oe: true,
                runstdby: false,
            },
        );
        self.wait_for_sync();
    }

    /// Route a generator to a peripheral clock channel and enable the
    /// channel, waiting for the write to synchronize.
    fn enable_clock_generator(&mut self, clock: ClockId, generator: ClockGenId)
        requires
            old(self).wf(),
        ensures
            final(self).wf(),
            final(self).gclk == (GCLK {
                pchctrl: final(self).gclk.pchctrl,
                syncbusy: old(self).gclk.syncbusy.spec_pulse(old(self).gclk.sync_lag).spec_wait(
                    false,
                ),
                ..old(self).gclk
            }),
            final(self).gclk.pchctrl@ == old(self).gclk.pchctrl@.update(
                clock.spec_index() as int,
                PchCtrl { gen: generator.spec_bits(), chen: true },
            ),
    {
        let idx = clock.index() as usize;
        self.gclk.write_pchctrl(idx, PchCtrl { gen: generator.bits(), chen: true });
        self.wait_for_sync();
    }

    /// Enable or disable a generator's operation in standby, waiting for
    /// the write to synchronize.
    fn configure_standby(&mut self, gclk: ClockGenId, enable: bool)
        requires
            old(self).wf(),
        ensures
            final(self).wf(),
            final(self).gclk == (GCLK {
                genctrl: final(self).gclk.genctrl,
                syncbusy: old(self).gclk.syncbusy.spec_pulse(old(self).gclk.sync_lag).spec_wait(
                    false,
                ),
                ..old(self).gclk
            }),
            final(self).gclk.genctrl@ == old(self).gclk.genctrl@.update(
                gclk.spec_bits() as int,
                GenCtrl { runstdby: enable, ..old(self).gclk.genctrl@[gclk.spec_bits() as int] },
            ),
    {
        let idx = gclk.bits() as usize;
        let current = self.gclk.genctrl[idx];
        self.gclk.write_genctrl(idx, GenCtrl { runstdby: enable, ..current });
        self.wait_for_sync();
    }
}

/// `GenericClockController` encapsulates the generic clock controller
/// hardware. It provides a type safe way to configure the system clocks.
/// Initializing it configures the system to run at 120 MHz by taking the
/// 48 MHz source and feeding it into the first phase-locked loop.
pub struct GenericClockController {
    state: State,
    gclks: Vec<Hertz>,
    used_clocks: u64,
}

impl GenericClockController {
    /// Well-formedness: the register arrays and the frequency table have
    /// their hardware sizes.
    pub closed spec fn wf(&self) -> bool {
        self.state.wf() && self.gclks.len() == 12
    }

    /// The generator control registers, as seen by specifications.
    pub closed spec fn spec_genctrl(&self) -> Seq<GenCtrl> {
        self.state.gclk.genctrl@
    }

    /// The peripheral channel registers, as seen by specifications.
    pub closed spec fn spec_pchctrl(&self) -> Seq<PchCtrl> {
        self.state.gclk.pchctrl@
    }

    /// The synchronization-busy bit, as seen by specifications.
    pub closed spec fn spec_syncbusy(&self) -> crate::port::SyncFlag {
        self.state.gclk.syncbusy
    }

    /// The block's settling delay, as seen by specifications.
    pub closed spec fn spec_sync_lag(&self) -> u8 {
        self.state.gclk.sync_lag
    }

    /// The table of configured generator frequencies, as seen by
    /// specifications.
    pub closed spec fn spec_gclks(&self) -> Seq<Hertz> {
        self.gclks@
    }

    /// The bitmask of peripheral clock channels already handed out, as
    /// seen by specifications.
    pub closed spec fn spec_used_clocks(&self) -> u64 {
        self.used_clocks
    }

    /// Whether the given peripheral clock channel is still available.
    pub open spec fn spec_pclk_free(self, clock: ClockId) -> bool {
        self.spec_used_clocks() & (1u64 << (clock.spec_index() as u64)) == 0
    }

    /// The generator contents that initialisation establishes: generator 1
    /// divides the chosen 32 kHz oscillator by one, generator 5 divides
    /// the 48 MHz source down to 2 MHz for the phase-locked loop, and
    /// generator 0 carries the 120 MHz output of that loop.
    pub open spec fn spec_initial_gens(use_external_crystal: bool) -> Seq<GenCtrl> {
        GCLK::spec_zero_gens().update(
            1,
            GenCtrl {
                src: if use_external_crystal {
                    ClockSource::XOSC32K.spec_bits()
                } else {
                    ClockSource::OSCULP32K.spec_bits()
                },
                div: 1,
                divsel: false,
                idc: false,
                genen: true,
                oe: true,
                runstdby: false,
            },
        ).update(
            5,
            GenCtrl {
                src: ClockSource::DFLL.spec_bits(),
                div: 24,
                divsel: false,
                idc: false,
                genen: true,
                oe: false,
                runstdby: false,
            },
        ).update(
            0,
            GenCtrl {
                src: ClockSource::DPLL0.spec_bits(),
                div: 1,
                divsel: false,
                idc: false,
                genen: true,
                oe: true,
                runstdby: false,
            },
        )
    }

    /// The frequency table that initialisation establishes.
    pub open spec fn spec_initial_gclks() -> Seq<Hertz> {
        seq![
            Hertz(OSC120M_FREQ),
            Hertz(OSC32K_FREQ),
            Hertz(0),
            Hertz(0),
            Hertz(0),
            Hertz(2_000_000),
            Hertz(0),
            Hertz(0),
            Hertz(0),
            Hertz(0),
            Hertz(0),
            Hertz(0),
        ]
    }

    /// Reset the clock controller, configure the system to run at 120 MHz
    /// from the internal 32 kHz oscillator and reset various clock
    /// dividers.
    pub fn with_internal_32kosc(
        gclk: GCLK,
        mclk: &mut MCLK,
        osc32kctrl: &mut OSC32KCTRL,
        oscctrl: &mut OSCCTRL,
        nvmctrl: &mut NVMCTRL,
    ) -> (r: GenericClockController)
        requires
            gclk.wf(),
        ensures
            r.wf(),
            r.spec_genctrl() == Self::spec_initial_gens(false),
            r.spec_pchctrl() == GCLK::spec_zero_pchs().update(
                ClockId::FDPLL0.spec_index() as int,
                PchCtrl { gen: 5, chen: true },
            ),
            r.spec_gclks() == Self::spec_initial_gclks(),
            r.spec_used_clocks() == 1u64 << (ClockId::FDPLL0.spec_index() as u64),
            r.spec_sync_lag() == gclk.sync_lag,
            r.spec_syncbusy().target == false && r.spec_syncbusy().lag == 0,
            *final(mclk) == (MCLK { apba_gclk: true, cpudiv: 1, ..*old(mclk) }),
            *final(nvmctrl) == (NVMCTRL { rws: 7 }),
            final(oscctrl).dpll0.ldr == 59 && final(oscctrl).dpll0.ldrfrac == 0,
            final(oscctrl).dpll0.refclk == DPLL_REFCLK_GCLK,
            final(oscctrl).dpll0.enable && !final(oscctrl).dpll0.ondemand,
            final(oscctrl).dpll0.lock.target,
            final(oscctrl).dpll0.clkrdy.target,
            final(oscctrl).sync_lag == old(oscctrl).sync_lag,
            *final(osc32kctrl) == (OSC32KCTRL {
                ulp_en32k: true,
                ulp_en1k: true,
                rtcsel: RTCSEL_ULP1K,
                ..*old(osc32kctrl)
            }),
    {
        Self::new(gclk, mclk, osc32kctrl, oscctrl, nvmctrl, false)
    }

    /// Reset the clock controller, configure the system to run at 120 MHz
    /// from the external 32 kHz crystal and reset various clock dividers.
    pub fn with_external_32kosc(
        gclk: GCLK,
        mclk: &mut MCLK,
        osc32kctrl: &mut OSC32KCTRL,
        oscctrl: &mut OSCCTRL,
        nvmctrl: &mut NVMCTRL,
    ) -> (r: GenericClockController)
        requires
            gclk.wf(),
        ensures
            r.wf(),
            r.spec_genctrl() == Self::spec_initial_gens(true),
            r.spec_pchctrl() == GCLK::spec_zero_pchs().update(
                ClockId::FDPLL0.spec_index() as int,
                PchCtrl { gen: 5, chen: true },
            ),
            r.spec_gclks() == Self::spec_initial_gclks(),
            r.spec_used_clocks() == 1u64 << (ClockId::FDPLL0.spec_index() as u64),
            r.spec_sync_lag() == gclk.sync_lag,
            r.spec_syncbusy().target == false && r.spec_syncbusy().lag == 0,
            *final(mclk) == (MCLK { apba_gclk: true, cpudiv: 1, ..*old(mclk) }),
            *final(nvmctrl) == (NVMCTRL { rws: 7 }),
            final(oscctrl).dpll0.ldr == 59 && final(oscctrl).dpll0.ldrfrac == 0,
            final(oscctrl).dpll0.refclk == DPLL_REFCLK_GCLK,
            final(oscctrl).dpll0.enable && !final(oscctrl).dpll0.ondemand,
            final(oscctrl).dpll0.lock.target,
            final(oscctrl).dpll0.clkrdy.target,
            final(oscctrl).sync_lag == old(oscctrl).sync_lag,
            final(osc32kctrl).xosc_enable && final(osc32kctrl).xosc_xtalen,
            final(osc32kctrl).xosc_en32k && final(osc32kctrl).xosc_en1k,
            final(osc32kctrl).xosc_cgm_xt && final(osc32kctrl).xosc_runstdby,
            !final(osc32kctrl).xosc_ondemand,
            final(osc32kctrl).rtcsel == RTCSEL_XOSC1K,
            final(osc32kctrl).xosc32krdy.target,
    {
        Self::new(gclk, mclk, osc32kctrl, oscctrl, nvmctrl, true)
    }

    fn new(
        gclk: GCLK,
        mclk: &mut MCLK,
        osc32kctrl: &mut OSC32KCTRL,
        oscctrl: &mut OSCCTRL,
        nvmctrl: &mut NVMCTRL,
        use_external_crystal: bool,
    ) -> (r: GenericClockController)
        requires
            gclk.wf(),
        ensures
            r.wf(),
            r.spec_genctrl() == Self::spec_initial_gens(use_external_crystal),
            r.spec_pchctrl() == GCLK::spec_zero_pchs().update(
                ClockId::FDPLL0.spec_index() as int,
                PchCtrl { gen: 5, chen: true },
            ),
            r.spec_gclks() == Self::spec_initial_gclks(),
            r.spec_used_clocks() == 1u64 << (ClockId::FDPLL0.spec_index() as u64),
            r.spec_sync_lag() == gclk.sync_lag,
            r.spec_syncbusy().target == false && r.spec_syncbusy().lag == 0,
            *final(mclk) == (MCLK { apba_gclk: true, cpudiv: 1, ..*old(mclk) }),
            *final(nvmctrl) == (NVMCTRL { rws: 7 }),
            final(oscctrl).dpll0.ldr == 59 && final(oscctrl).dpll0.ldrfrac == 0,
            final(oscctrl).dpll0.refclk == DPLL_REFCLK_GCLK,
            final(oscctrl).dpll0.enable && !final(oscctrl).dpll0.ondemand,
            final(oscctrl).dpll0.lock.target,
            final(oscctrl).dpll0.clkrdy.target,
            final(oscctrl).sync_lag == old(oscctrl).sync_lag,
            !use_external_crystal ==> *final(osc32kctrl) == (OSC32KCTRL {
                ulp_en32k: true,
                ulp_en1k: true,
                rtcsel: RTCSEL_ULP1K,
                ..*old(osc32kctrl)
            }),
            use_external_crystal ==> final(osc32kctrl).xosc_enable
                && final(osc32kctrl).xosc_xtalen
                && final(osc32kctrl).xosc_en32k
                && final(osc32kctrl).xosc_en1k
                && final(osc32kctrl).xosc_cgm_xt
                && final(osc32kctrl).xosc_runstdby
                && !final(osc32kctrl).xosc_ondemand
                && final(osc32kctrl).rtcsel == RTCSEL_XOSC1K
                && final(osc32kctrl).xosc32krdy.target,
    {
        let mut state = State { gclk };

        set_flash_to_half_auto_wait_state(nvmctrl);
        enable_gclk_apb(mclk);

        if use_external_crystal {
            enable_external_32kosc(osc32kctrl);
            state.reset_gclk();
            state.set_gclk_divider_and_source(ClockGenId::GCLK1, 1, ClockSource::XOSC32K, false);
        } else {
            enable_internal_32kosc(osc32kctrl);
            state.reset_gclk();
            state.set_gclk_divider_and_source(ClockGenId::GCLK1, 1, ClockSource::OSCULP32K, false);
        }

        state.wait_for_sync();

        // Generator 5 set to 2 MHz for the phase-locked loop reference
        state.gclk.write_genctrl(
            5,
            GenCtrl {
                src: ClockSource::DFLL.bits(),
                div: 24,
                divsel: false,
                idc: false,
                genen: true,
                oe: false,
                runstdby: false,
            },
        );
        state.wait_for_sync();

        configure_and_enable_dpll0(oscctrl, &mut state.gclk);
        wait_for_dpllrdy(oscctrl);

        // Generator 0 set to the 120 MHz loop output
        state.gclk.write_genctrl(
            0,
            GenCtrl {
                src: ClockSource::DPLL0.bits(),
                div: 1,
                divsel: false,
                idc: false,
                genen: true,
                oe: true,
                runstdby: false,
            },
        );
        state.wait_for_sync();

        mclk.cpudiv = 1;

        let gclks: Vec<Hertz> = vec![
            Hertz(OSC120M_FREQ),
            Hertz(OSC32K_FREQ),
            Hertz(0),
            Hertz(0),
            Hertz(0),
            Hertz(2_000_000),
            Hertz(0),
            Hertz(0),
            Hertz(0),
            Hertz(0),
            Hertz(0),
            Hertz(0),
        ];
        let used_clocks: u64 = 1u64 << (ClockId::FDPLL0.index() as u64);

        GenericClockController { state, gclks, used_clocks }
    }

    /// Returns a `GClock` for generator 0, the 120 MHz oscillator.
    pub fn gclk0(&mut self) -> (r: GClock)
        requires
            old(self).wf(),
        ensures
            *final(self) == *old(self),
            r.spec_gclk() == ClockGenId::GCLK0,
            r.spec_freq() == old(self).spec_gclks()[0],
    {
        GClock { gclk: ClockGenId::GCLK0, freq: self.gclks[0] }
    }

    /// Returns a `GClock` for generator 1, the 32 kHz oscillator.
    pub fn gclk1(&mut self) -> (r: GClock)
        requires
            old(self).wf(),
        ensures
            *final(self) == *old(self),
            r.spec_gclk() == ClockGenId::GCLK1,
            r.spec_freq() == old(self).spec_gclks()[1],
    {
        GClock { gclk: ClockGenId::GCLK1, freq: self.gclks[1] }
    }

    /// Returns the `GClock` for the specified clock generator, or `None`
    /// if that generator has not yet been configured.
    pub fn get_gclk(&mut self, gclk: ClockGenId) -> (r: Option<GClock>)
        requires
            old(self).wf(),
        ensures
            *final(self) == *old(self),
            old(self).spec_gclks()[gclk.spec_bits() as int].0 == 0 ==> r is None,
            old(self).spec_gclks()[gclk.spec_bits() as int].0 != 0 ==> (r matches Some(g)
                && g.spec_gclk() == gclk && g.spec_freq() == old(self).spec_gclks()[gclk.spec_bits() as int]),
    {
        let idx = gclk.bits() as usize;
        if self.gclks[idx].0 == 0 {
            None
        } else {
            Some(GClock { gclk, freq: self.gclks[idx] })
        }
    }

    /// The source frequency a generator would divide, for each selectable
    /// source this driver supports.
    pub open spec fn spec_src_freq(self, src: ClockSource) -> Hertz {
        match src {
            ClockSource::XOSC32K => Hertz(OSC32K_FREQ),
            ClockSource::OSCULP32K => Hertz(OSC32K_FREQ),
            ClockSource::GCLKGEN1 => self.spec_gclks()[1],
            ClockSource::DFLL => Hertz(OSC48M_FREQ),
            ClockSource::DPLL0 => Hertz(OSC120M_FREQ),
            _ => Hertz(0),
        }
    }

    /// Configures a clock generator with the specified linear divider and
    /// source, enables it, and records its effective frequency. Returns a
    /// `GClock` carrying the undivided source frequency, or `None` if the
    /// generator has already been configured.
    ///
    /// The divider must be at least one; generators other than the second
    /// only accept dividers below 256; and only the 32 kHz sources, the
    /// second generator, the 48 MHz source and the first phase-locked
    /// loop are selectable here.
    pub fn configure_gclk_divider_and_source(
        &mut self,
        gclk: ClockGenId,
        divider: u16,
        src: ClockSource,
        improve_duty_cycle: bool,
    ) -> (r: Option<GClock>)
        requires
            old(self).wf(),
            1 <= divider,
            gclk == ClockGenId::GCLK1 || divider < 256,
            src == ClockSource::XOSC32K || src == ClockSource::OSCULP32K || src
                == ClockSource::GCLKGEN1 || src == ClockSource::DFLL || src == ClockSource::DPLL0,
        ensures
            final(self).wf(),
            old(self).spec_gclks()[gclk.spec_bits() as int].0 != 0 ==> r is None && *final(self)
                == *old(self),
            old(self).spec_gclks()[gclk.spec_bits() as int].0 == 0 ==> {
                &&& r matches Some(g) && g.spec_gclk() == gclk
                &&& r matches Some(g) ==> g.spec_freq() == old(self).spec_src_freq(src)
                &&& final(self).spec_gclks() == old(self).spec_gclks().update(
                    gclk.spec_bits() as int,
                    Hertz((old(self).spec_src_freq(src).0 / divider as u32) as u32),
                )
                &&& final(self).spec_genctrl() == old(self).spec_genctrl().update(
                    gclk.spec_bits() as int,
                    GenCtrl {
                        src: src.spec_bits(),
                        div: divider,
                        divsel: false,
                        idc: improve_duty_cycle,
                        genen: true,
                        oe: true,
                        runstdby: false,
                    },
                )
                &&& final(self).spec_pchctrl() == old(self).spec_pchctrl()
                &&& final(self).spec_used_clocks() == old(self).spec_used_clocks()
                &&& final(self).spec_sync_lag() == old(self).spec_sync_lag()
            },
    {
        let idx = gclk.bits() as usize;
        if self.gclks[idx].0 != 0 {
            return None;
        }
        self.state.set_gclk_divider_and_source(gclk, divider, src, improve_duty_cycle);
        let freq: Hertz = match src {
            ClockSource::XOSC32K => Hertz(OSC32K_FREQ),
            ClockSource::OSCULP32K => Hertz(OSC32K_FREQ),
            ClockSource::GCLKGEN1 => self.gclks[1],
            ClockSource::DFLL => Hertz(OSC48M_FREQ),
            ClockSource::DPLL0 => Hertz(OSC120M_FREQ),
            _ => Hertz(0),
        };
        self.gclks[idx] = Hertz(freq.0 / divider as u32);
        Some(GClock { gclk, freq })
    }

    /// Enables or disables the given generator's operation in standby.
    pub fn configure_standby(&mut self, gclk: ClockGenId, enable: bool)
        requires
            old(self).wf(),
        ensures
            final(self).wf(),
            final(self).spec_genctrl() == old(self).spec_genctrl().update(
                gclk.spec_bits() as int,
                GenCtrl {
                    runstdby: enable,
                    ..old(self).spec_genctrl()[gclk.spec_bits() as int]
                },
            ),
            final(self).spec_pchctrl() == old(self).spec_pchctrl(),
            final(self).spec_gclks() == old(self).spec_gclks(),
            final(self).spec_used_clocks() == old(self).spec_used_clocks(),
            final(self).spec_sync_lag() == old(self).spec_sync_lag(),
    {
        self.state.configure_standby(gclk, enable)
    }

    /// Claim the given peripheral clock channel: if it is still free, mark
    /// it used, route the generator to it, and hand back the generator's
    /// recorded frequency.
    fn claim_pclk(&mut self, clock: ClockId, generator: &GClock) -> (r: Option<Hertz>)
        requires
            old(self).wf(),
        ensures
            final(self).wf(),
            r is Some <==> old(self).spec_pclk_free(clock),
            !old(self).spec_pclk_free(clock) ==> *final(self) == *old(self),
            old(self).spec_pclk_free(clock) ==> {
                &&& r == Some(old(self).spec_gclks()[generator.spec_gclk().spec_bits() as int])
                &&& final(self).spec_used_clocks() == (old(self).spec_used_clocks() | (1u64 << (
                clock.spec_index() as u64)))
                &&& final(self).spec_pchctrl() == old(self).spec_pchctrl().update(
                    clock.spec_index() as int,
                    PchCtrl { gen: generator.spec_gclk().spec_bits(), chen: true },
                )
            },
            final(self).spec_gclks() == old(self).spec_gclks(),
            final(self).spec_genctrl() == old(self).spec_genctrl(),
            final(self).spec_sync_lag() == old(self).spec_sync_lag(),
    {
        let bits: u64 = 1u64 << (clock.index() as u64);
        if (self.used_clocks & bits) != 0 {
            return None;
        }
        self.used_clocks = self.used_clocks | bits;

        self.state.enable_clock_generator(clock, generator.gclk);
        let idx = generator.gclk.bits() as usize;
        Some(self.gclks[idx])
    }
}

fn set_flash_to_half_auto_wait_state(nvmctrl: &mut NVMCTRL)
    ensures
        *final(nvmctrl) == (NVMCTRL { rws: 7 }),
{
    // Zero indicates zero wait states, one indicates one wait state, and
    // so on, up to 15 wait states.
    nvmctrl.rws = 7;
}

fn enable_gclk_apb(mclk: &mut MCLK)
    ensures
        *final(mclk) == (MCLK { apba_gclk: true, ..*old(mclk) }),
{
    mclk.apba_gclk = true;
}

/// Turn on the internal 32 kHz oscillator and route its 1 kHz output to
/// the real-time clock.
fn enable_internal_32kosc(osc32kctrl: &mut OSC32KCTRL)
    ensures
        *final(osc32kctrl) == (OSC32KCTRL {
            ulp_en32k: true,
            ulp_en1k: true,
            rtcsel: RTCSEL_ULP1K,
            ..*old(osc32kctrl)
        }),
{
    osc32kctrl.ulp_en32k = true;
    osc32kctrl.ulp_en1k = true;
    osc32kctrl.rtcsel = RTCSEL_ULP1K;
}

/// Turn on the external 32 kHz oscillator, route its 1 kHz output to the
/// real-time clock, and wait for the crystal to stabilize.
fn enable_external_32kosc(osc32kctrl: &mut OSC32KCTRL)
    ensures
        *final(osc32kctrl) == (OSC32KCTRL {
            xosc_ondemand: false,
            xosc_en32k: true,
            xosc_en1k: true,
            xosc_xtalen: true,
            xosc_enable: true,
            xosc_cgm_xt: true,
            xosc_runstdby: true,
            rtcsel: RTCSEL_XOSC1K,
            xosc32krdy: old(osc32kctrl).xosc32krdy.spec_write(
                true,
                old(osc32kctrl).sync_lag,
            ).spec_wait(true),
            ..*old(osc32kctrl)
        }),
{
    osc32kctrl.xosc_ondemand = false;
    // Enable the 32 kHz and 1 kHz outputs
    osc32kctrl.xosc_en32k = true;
    osc32kctrl.xosc_en1k = true;
    // Crystal connected between the oscillator pins
    osc32kctrl.xosc_xtalen = true;
    osc32kctrl.xosc_enable = true;
    osc32kctrl.xosc_cgm_xt = true;
    osc32kctrl.xosc_runstdby = true;

    osc32kctrl.rtcsel = RTCSEL_XOSC1K;

    // Wait for the oscillator to stabilize
    let lag = osc32kctrl.sync_lag;
    osc32kctrl.xosc32krdy.write(true, lag);
    osc32kctrl.xosc32krdy.wait_until(true);
}

/// Spin until the first phase-locked loop reports lock and clock-ready.
fn wait_for_dpllrdy(oscctrl: &mut OSCCTRL)
    requires
        old(oscctrl).dpll0.lock.target,
        old(oscctrl).dpll0.clkrdy.target,
    ensures
        *final(oscctrl) == (OSCCTRL {
            dpll0: Dpll {
                lock: old(oscctrl).dpll0.lock.spec_wait(true),
                clkrdy: old(oscctrl).dpll0.clkrdy.spec_wait(true),
                ..old(oscctrl).dpll0
            },
            ..*old(oscctrl)
        }),
{
    oscctrl.dpll0.lock.wait_until(true);
    oscctrl.dpll0.clkrdy.wait_until(true);
}

/// Configure the first phase-locked loop to multiply the 2 MHz reference
/// on generator 5 up to 120 MHz, and enable it; the lock and clock-ready
/// bits start settling towards ready.
fn configure_and_enable_dpll0(oscctrl: &mut OSCCTRL, gclk: &mut GCLK)
    requires
        old(gclk).wf(),
    ensures
        final(gclk).wf(),
        final(gclk).pchctrl@ == old(gclk).pchctrl@.update(
            ClockId::FDPLL0.spec_index() as int,
            PchCtrl { gen: 5, chen: true },
        ),
        final(gclk).genctrl == old(gclk).genctrl,
        final(gclk).swrst == old(gclk).swrst,
        final(gclk).syncbusy == old(gclk).syncbusy.spec_pulse(old(gclk).sync_lag),
        final(gclk).sync_lag == old(gclk).sync_lag,
        *final(oscctrl) == (OSCCTRL {
            dpll0: Dpll {
                ldr: 59,
                ldrfrac: 0,
                refclk: DPLL_REFCLK_GCLK,
                enable: true,
                ondemand: false,
                lock: old(oscctrl).dpll0.lock.spec_write(true, old(oscctrl).sync_lag),
                clkrdy: old(oscctrl).dpll0.clkrdy.spec_write(true, old(oscctrl).sync_lag),
            },
            ..*old(oscctrl)
        }),
{
    let idx = ClockId::FDPLL0.index() as usize;
    gclk.write_pchctrl(idx, PchCtrl { gen: 5, chen: true });

    oscctrl.dpll0.ldr = 59;
    oscctrl.dpll0.ldrfrac = 0;
    oscctrl.dpll0.refclk = DPLL_REFCLK_GCLK;
    oscctrl.dpll0.enable = true;
    oscctrl.dpll0.ondemand = false;
    let lag = oscctrl.sync_lag;
    oscctrl.dpll0.lock.write(true, lag);
    oscctrl.dpll0.clkrdy.write(true, lag);
}

/// A typed token that indicates that the clock for the peripheral(s)
/// with the matching name has been configured. The effective clock
/// frequency is available via the `freq` method; peripheral
/// initialization code will typically require this token to prove at
/// compile time that the clock has been correctly initialized.
#[derive(Debug)]
pub struct Tc0Tc1Clock {
    freq: Hertz,
}

impl Tc0Tc1Clock {
    /// The frequency of the configured clock, as seen by specifications.
    pub closed spec fn spec_freq(&self) -> Hertz {
        self.freq
    }

    /// Returns the frequency of the configured clock.
    pub fn freq(&self) -> (r: Hertz)
        ensures
            r == self.spec_freq(),
    {
        self.freq
    }
}

/// A typed token that indicates that the clock for the peripheral(s)
/// with the matching name has been configured. The effective clock
/// frequency is available via the `freq` method; peripheral
/// initialization code will typically require this token to prove at
/// compile time that the clock has been correctly initialized.
#[derive(Debug)]
pub struct Tcc0Tcc1Clock {
    freq: Hertz,
}

impl Tcc0Tcc1Clock {
    /// The frequency of the configured clock, as seen by specifications.
    pub closed spec fn spec_freq(&self) -> Hertz {
        self.freq
    }

    /// Returns the frequency of the configured clock.
    pub fn freq(&self) -> (r: Hertz)
        ensures
            r == self.spec_freq(),
    {
        self.freq
    }
}

/// A typed token that indicates that the clock for the peripheral(s)
/// with the matching name has been configured. The effective clock
/// frequency is available via the `freq` method; peripheral
/// initialization code will typically require this token to prove at
/// compile time that the clock has been correctly initialized.
#[derive(Debug)]
pub struct Tc2Tc3Clock {
    freq: Hertz,
}

impl Tc2Tc3Clock {
    /// The frequency of the configured clock, as seen by specifications.
    pub closed spec fn spec_freq(&self) -> Hertz {
        self.freq
    }

    /// Returns the frequency of the configured clock.
    pub fn freq(&self) -> (r: Hertz)
        ensures
            r == self.spec_freq(),
    {
        self.freq
    }
}

/// A typed token that indicates that the clock for the peripheral(s)
/// with the matching name has been configured. The effective clock
/// frequency is available via the `freq` method; peripheral
/// initialization code will typically require this token to prove at
/// compile time that the clock has been correctly initialized.
#[derive(Debug)]
pub struct Tcc2Tcc3Clock {
    freq: Hertz,
}

impl Tcc2Tcc3Clock {
    /// The frequency of the configured clock, as seen by specifications.
    pub closed spec fn spec_freq(&self) -> Hertz {
        self.freq
    }

    /// Returns the frequency of the configured clock.
    pub fn freq(&self) -> (r: Hertz)
        ensures
            r == self.spec_freq(),
    {
        self.freq
    }
}

/// A typed token that indicates that the clock for the peripheral(s)
/// with the matching name has been configured. The effective clock
/// frequency is available via the `freq` method; peripheral
/// initialization code will typically require this token to prove at
/// compile time that the clock has been correctly initialized.
#[derive(Debug)]
pub struct Tc4Tc5Clock {
    freq: Hertz,
}

impl Tc4Tc5Clock {
    /// The frequency of the configured clock, as seen by specifications.
    pub closed spec fn spec_freq(&self) -> Hertz {
        self.freq
    }

    /// Returns the frequency of the configured clock.
    pub fn freq(&self) -> (r: Hertz)
        ensures
            r == self.spec_freq(),
    {
        self.freq
    }
}

/// A typed token that indicates that the clock for the peripheral(s)
/// with the matching name has been configured. The effective clock
/// frequency is available via the `freq` method; peripheral
/// initialization code will typically require this token to prove at
/// compile time that the clock has been correctly initialized.
#[derive(Debug)]
pub struct Tcc4Clock {
    freq: Hertz,
}

impl Tcc4Clock {
    /// The frequency of the configured clock, as seen by specifications.
    pub closed spec fn spec_freq(&self) -> Hertz {
        self.freq
    }

    /// Returns the frequency of the configured clock.
    pub fn freq(&self) -> (r: Hertz)
        ensures
            r == self.spec_freq(),
    {
        self.freq
    }
}

/// A typed token that indicates that the clock for the peripheral(s)
/// with the matching name has been configured. The effective clock
/// frequency is available via the `freq` method; peripheral
/// initialization code will typically require this token to prove at
/// compile time that the clock has been correctly initialized.
#[derive(Debug)]
pub struct Tc6Tc7Clock {
    freq: Hertz,
}

impl Tc6Tc7Clock {
    /// The frequency of the configured clock, as seen by specifications.
    pub closed spec fn spec_freq(&self) -> Hertz {
        self.freq
    }

    /// Returns the frequency of the configured clock.
    pub fn freq(&self) -> (r: Hertz)
        ensures
            r == self.spec_freq(),
    {
        self.freq
    }
}

/// A typed token that indicates that the clock for the peripheral(s)
/// with the matching name has been configured. The effective clock
/// frequency is available via the `freq` method; peripheral
/// initialization code will typically require this token to prove at
/// compile time that the clock has been correctly initialized.
#[derive(Debug)]
pub struct Sercom0CoreClock {
    freq: Hertz,
}

impl Sercom0CoreClock {
    /// The frequency of the configured clock, as seen by specifications.
    pub closed spec fn spec_freq(&self) -> Hertz {
        self.freq
    }

    /// Returns the frequency of the configured clock.
    pub fn freq(&self) -> (r: Hertz)
        ensures
            r == self.spec_freq(),
    {
        self.freq
    }
}

/// A typed token that indicates that the clock for the peripheral(s)
/// with the matching name has been configured. The effective clock
/// frequency is available via the `freq` method; peripheral
/// initialization code will typically require this token to prove at
/// compile time that the clock has been correctly initialized.
#[derive(Debug)]
pub struct Sercom1CoreClock {
    freq: Hertz,
}

impl Sercom1CoreClock {
    /// The frequency of the configured clock, as seen by specifications.
    pub closed spec fn spec_freq(&self) -> Hertz {
        self.freq
    }

    /// Returns the frequency of the configured clock.
    pub fn freq(&self) -> (r: Hertz)
        ensures
            r == self.spec_freq(),
    {
        self.freq
    }
}

/// A typed token that indicates that the clock for the peripheral(s)
/// with the matching name has been configured. The effective clock
/// frequency is available via the `freq` method; peripheral
/// initialization code will typically require this token to prove at
/// compile time that the clock has been correctly initialized.
#[derive(Debug)]
pub struct Sercom2CoreClock {
    freq: Hertz,
}

impl Sercom2CoreClock {
    /// The frequency of the configured clock, as seen by specifications.
    pub closed spec fn spec_freq(&self) -> Hertz {
        self.freq
    }

    /// Returns the frequency of the configured clock.
    pub fn freq(&self) -> (r: Hertz)
        ensures
            r == self.spec_freq(),
    {
        self.freq
    }
}

/// A typed token that indicates that the clock for the peripheral(s)
/// with the matching name has been configured. The effective clock
/// frequency is available via the `freq` method; peripheral
/// initialization code will typically require this token to prove at
/// compile time that the clock has been correctly initialized.
#[derive(Debug)]
pub struct Sercom3CoreClock {
    freq: Hertz,
}

impl Sercom3CoreClock {
    /// The frequency of the configured clock, as seen by specifications.
    pub closed spec fn spec_freq(&self) -> Hertz {
        self.freq
    }

    /// Returns the frequency of the configured clock.
    pub fn freq(&self) -> (r: Hertz)
        ensures
            r == self.spec_freq(),
    {
        self.freq
    }
}

/// A typed token that indicates that the clock for the peripheral(s)
/// with the matching name has been configured. The effective clock
/// frequency is available via the `freq` method; peripheral
/// initialization code will typically require this token to prove at
/// compile time that the clock has been correctly initialized.
#[derive(Debug)]
pub struct Sercom4CoreClock {
    freq: Hertz,
}

impl Sercom4CoreClock {
    /// The frequency of the configured clock, as seen by specifications.
    pub closed spec fn spec_freq(&self) -> Hertz {
        self.freq
    }

    /// Returns the frequency of the configured clock.
    pub fn freq(&self) -> (r: Hertz)
        ensures
            r == self.spec_freq(),
    {
        self.freq
    }
}

/// A typed token that indicates that the clock for the peripheral(s)
/// with the matching name has been configured. The effective clock
/// frequency is available via the `freq` method; peripheral
/// initialization code will typically require this token to prove at
/// compile time that the clock has been correctly initialized.
#[derive(Debug)]
pub struct Sercom5CoreClock {
    freq: Hertz,
}

impl Sercom5CoreClock {
    /// The frequency of the configured clock, as seen by specifications.
    pub closed spec fn spec_freq(&self) -> Hertz {
        self.freq
    }

    /// Returns the frequency of the configured clock.
    pub fn freq(&self) -> (r: Hertz)
        ensures
            r == self.spec_freq(),
    {
        self.freq
    }
}

/// A typed token that indicates that the clock for the peripheral(s)
/// with the matching name has been configured. The effective clock
/// frequency is available via the `freq` method; peripheral
/// initialization code will typically require this token to prove at
/// compile time that the clock has been correctly initialized.
#[derive(Debug)]
pub struct UsbClock {
    freq: Hertz,
}

impl UsbClock {
    /// The frequency of the configured clock, as seen by specifications.
    pub closed spec fn spec_freq(&self) -> Hertz {
        self.freq
    }

    /// Returns the frequency of the configured clock.
    pub fn freq(&self) -> (r: Hertz)
        ensures
            r == self.spec_freq(),
    {
        self.freq
    }
}

/// A typed token that indicates that the clock for the peripheral(s)
/// with the matching name has been configured. The effective clock
/// frequency is available via the `freq` method; peripheral
/// initialization code will typically require this token to prove at
/// compile time that the clock has been correctly initialized.
#[derive(Debug)]
pub struct Adc0Clock {
    freq: Hertz,
}

impl Adc0Clock {
    /// The frequency of the configured clock, as seen by specifications.
    pub closed spec fn spec_freq(&self) -> Hertz {
        self.freq
    }

    /// Returns the frequency of the configured clock.
    pub fn freq(&self) -> (r: Hertz)
        ensures
            r == self.spec_freq(),
    {
        self.freq
    }
}

/// A typed token that indicates that the clock for the peripheral(s)
/// with the matching name has been configured. The effective clock
/// frequency is available via the `freq` method; peripheral
/// initialization code will typically require this token to prove at
/// compile time that the clock has been correctly initialized.
#[derive(Debug)]
pub struct Adc1Clock {
    freq: Hertz,
}

impl Adc1Clock {
    /// The frequency of the configured clock, as seen by specifications.
    pub closed spec fn spec_freq(&self) -> Hertz {
        self.freq
    }

    /// Returns the frequency of the configured clock.
    pub fn freq(&self) -> (r: Hertz)
        ensures
            r == self.spec_freq(),
    {
        self.freq
    }
}

/// A typed token that indicates that the clock for the peripheral(s)
/// with the matching name has been configured. The effective clock
/// frequency is available via the `freq` method; peripheral
/// initialization code will typically require this token to prove at
/// compile time that the clock has been correctly initialized.
#[derive(Debug)]
pub struct EicClock {
    freq: Hertz,
}

impl EicClock {
    /// The frequency of the configured clock, as seen by specifications.
    pub closed spec fn spec_freq(&self) -> Hertz {
        self.freq
    }

    /// Returns the frequency of the configured clock.
    pub fn freq(&self) -> (r: Hertz)
        ensures
            r == self.spec_freq(),
    {
        self.freq
    }
}

/// A typed token that indicates that the clock for the peripheral(s)
/// with the matching name has been configured. The effective clock
/// frequency is available via the `freq` method; peripheral
/// initialization code will typically require this token to prove at
/// compile time that the clock has been correctly initialized.
#[derive(Debug)]
pub struct FreqmMsrClock {
    freq: Hertz,
}

impl FreqmMsrClock {
    /// The frequency of the configured clock, as seen by specifications.
    pub closed spec fn spec_freq(&self) -> Hertz {
        self.freq
    }

    /// Returns the frequency of the configured clock.
    pub fn freq(&self) -> (r: Hertz)
        ensures
            r == self.spec_freq(),
    {
        self.freq
    }
}

/// A typed token that indicates that the clock for the peripheral(s)
/// with the matching name has been configured. The effective clock
/// frequency is available via the `freq` method; peripheral
/// initialization code will typically require this token to prove at
/// compile time that the clock has been correctly initialized.
#[derive(Debug)]
pub struct FreqmRefClock {
    freq: Hertz,
}

impl FreqmRefClock {
    /// The frequency of the configured clock, as seen by specifications.
    pub closed spec fn spec_freq(&self) -> Hertz {
        self.freq
    }

    /// Returns the frequency of the configured clock.
    pub fn freq(&self) -> (r: Hertz)
        ensures
            r == self.spec_freq(),
    {
        self.freq
    }
}

/// A typed token that indicates that the clock for the peripheral(s)
/// with the matching name has been configured. The effective clock
/// frequency is available via the `freq` method; peripheral
/// initialization code will typically require this token to prove at
/// compile time that the clock has been correctly initialized.
#[derive(Debug)]
pub struct Evsys0Clock {
    freq: Hertz,
}

impl Evsys0Clock {
    /// The frequency of the configured clock, as seen by specifications.
    pub closed spec fn spec_freq(&self) -> Hertz {
        self.freq
    }

    /// Returns the frequency of the configured clock.
    pub fn freq(&self) -> (r: Hertz)
        ensures
            r == self.spec_freq(),
    {
        self.freq
    }
}

/// A typed token that indicates that the clock for the peripheral(s)
/// with the matching name has been configured. The effective clock
/// frequency is available via the `freq` method; peripheral
/// initialization code will typically require this token to prove at
/// compile time that the clock has been correctly initialized.
#[derive(Debug)]
pub struct Evsys1Clock {
    freq: Hertz,
}

impl Evsys1Clock {
    /// The frequency of the configured clock, as seen by specifications.
    pub closed spec fn spec_freq(&self) -> Hertz {
        self.freq
    }

    /// Returns the frequency of the configured clock.
    pub fn freq(&self) -> (r: Hertz)
        ensures
            r == self.spec_freq(),
    {
        self.freq
    }
}

/// A typed token that indicates that the clock for the peripheral(s)
/// with the matching name has been configured. The effective clock
/// frequency is available via the `freq` method; peripheral
/// initialization code will typically require this token to prove at
/// compile time that the clock has been correctly initialized.
#[derive(Debug)]
pub struct Evsys2Clock {
    freq: Hertz,
}

impl Evsys2Clock {
    /// The frequency of the configured clock, as seen by specifications.
    pub closed spec fn spec_freq(&self) -> Hertz {
        self.freq
    }

    /// Returns the frequency of the configured clock.
    pub fn freq(&self) -> (r: Hertz)
        ensures
            r == self.spec_freq(),
    {
        self.freq
    }
}

/// A typed token that indicates that the clock for the peripheral(s)
/// with the matching name has been configured. The effective clock
/// frequency is available via the `freq` method; peripheral
/// initialization code will typically require this token to prove at
/// compile time that the clock has been correctly initialized.
#[derive(Debug)]
pub struct Evsys3Clock {
    freq: Hertz,
}

impl Evsys3Clock {
    /// The frequency of the configured clock, as seen by specifications.
    pub closed spec fn spec_freq(&self) -> Hertz {
        self.freq
    }

    /// Returns the frequency of the configured clock.
    pub fn freq(&self) -> (r: Hertz)
        ensures
            r == self.spec_freq(),
    {
        self.freq
    }
}

/// A typed token that indicates that the clock for the peripheral(s)
/// with the matching name has been configured. The effective clock
/// frequency is available via the `freq` method; peripheral
/// initialization code will typically require this token to prove at
/// compile time that the clock has been correctly initialized.
#[derive(Debug)]
pub struct Evsys4Clock {
    freq: Hertz,
}

impl Evsys4Clock {
    /// The frequency of the configured clock, as seen by specifications.
    pub closed spec fn spec_freq(&self) -> Hertz {
        self.freq
    }

    /// Returns the frequency of the configured clock.
    pub fn freq(&self) -> (r: Hertz)
        ensures
            r == self.spec_freq(),
    {
        self.freq
    }
}

/// A typed token that indicates that the clock for the peripheral(s)
/// with the matching name has been configured. The effective clock
/// frequency is available via the `freq` method; peripheral
/// initialization code will typically require this token to prove at
/// compile time that the clock has been correctly initialized.
#[derive(Debug)]
pub struct Evsys5Clock {
    freq: Hertz,
}

impl Evsys5Clock {
    /// The frequency of the configured clock, as seen by specifications.
    pub closed spec fn spec_freq(&self) -> Hertz {
        self.freq
    }

    /// Returns the frequency of the configured clock.
    pub fn freq(&self) -> (r: Hertz)
        ensures
            r == self.spec_freq(),
    {
        self.freq
    }
}

/// A typed token that indicates that the clock for the peripheral(s)
/// with the matching name has been configured. The effective clock
/// frequency is available via the `freq` method; peripheral
/// initialization code will typically require this token to prove at
/// compile time that the clock has been correctly initialized.
#[derive(Debug)]
pub struct Evsys6Clock {
    freq: Hertz,
}

impl Evsys6Clock {
    /// The frequency of the configured clock, as seen by specifications.
    pub closed spec fn spec_freq(&self) -> Hertz {
        self.freq
    }

    /// Returns the frequency of the configured clock.
    pub fn freq(&self) -> (r: Hertz)
        ensures
            r == self.spec_freq(),
    {
        self.freq
    }
}

/// A typed token that indicates that the clock for the peripheral(s)
/// with the matching name has been configured. The effective clock
/// frequency is available via the `freq` method; peripheral
/// initialization code will typically require this token to prove at
/// compile time that the clock has been correctly initialized.
#[derive(Debug)]
pub struct Evsys7Clock {
    freq: Hertz,
}

impl Evsys7Clock {
    /// The frequency of the configured clock, as seen by specifications.
    pub closed spec fn spec_freq(&self) -> Hertz {
        self.freq
    }

    /// Returns the frequency of the configured clock.
    pub fn freq(&self) -> (r: Hertz)
        ensures
            r == self.spec_freq(),
    {
        self.freq
    }
}

/// A typed token that indicates that the clock for the peripheral(s)
/// with the matching name has been configured. The effective clock
/// frequency is available via the `freq` method; peripheral
/// initialization code will typically require this token to prove at
/// compile time that the clock has been correctly initialized.
#[derive(Debug)]
pub struct Evsys8Clock {
    freq: Hertz,
}

impl Evsys8Clock {
    /// The frequency of the configured clock, as seen by specifications.
    pub closed spec fn spec_freq(&self) -> Hertz {
        self.freq
    }

    /// Returns the frequency of the configured clock.
    pub fn freq(&self) -> (r: Hertz)
        ensures
            r == self.spec_freq(),
    {
        self.freq
    }
}

/// A typed token that indicates that the clock for the peripheral(s)
/// with the matching name has been configured. The effective clock
/// frequency is available via the `freq` method; peripheral
/// initialization code will typically require this token to prove at
/// compile time that the clock has been correctly initialized.
#[derive(Debug)]
pub struct Evsys9Clock {
    freq: Hertz,
}

impl Evsys9Clock {
    /// The frequency of the configured clock, as seen by specifications.
    pub closed spec fn spec_freq(&self) -> Hertz {
        self.freq
    }

    /// Returns the frequency of the configured clock.
    pub fn freq(&self) -> (r: Hertz)
        ensures
            r == self.spec_freq(),
    {
        self.freq
    }
}

/// A typed token that indicates that the clock for the peripheral(s)
/// with the matching name has been configured. The effective clock
/// frequency is available via the `freq` method; peripheral
/// initialization code will typically require this token to prove at
/// compile time that the clock has been correctly initialized.
#[derive(Debug)]
pub struct Evsys10Clock {
    freq: Hertz,
}

impl Evsys10Clock {
    /// The frequency of the configured clock, as seen by specifications.
    pub closed spec fn spec_freq(&self) -> Hertz {
        self.freq
    }

    /// Returns the frequency of the configured clock.
    pub fn freq(&self) -> (r: Hertz)
        ensures
            r == self.spec_freq(),
    {
        self.freq
    }
}

/// A typed token that indicates that the clock for the peripheral(s)
/// with the matching name has been configured. The effective clock
/// frequency is available via the `freq` method; peripheral
/// initialization code will typically require this token to prove at
/// compile time that the clock has been correctly initialized.
#[derive(Debug)]
pub struct Evsys11Clock {
    freq: Hertz,
}

impl Evsys11Clock {
    /// The frequency of the configured clock, as seen by specifications.
    pub closed spec fn spec_freq(&self) -> Hertz {
        self.freq
    }

    /// Returns the frequency of the configured clock.
    pub fn freq(&self) -> (r: Hertz)
        ensures
            r == self.spec_freq(),
    {
        self.freq
    }
}

/// A typed token that indicates that the clock for the peripheral(s)
/// with the matching name has been configured. The effective clock
/// frequency is available via the `freq` method; peripheral
/// initialization code will typically require this token to prove at
/// compile time that the clock has been correctly initialized.
#[derive(Debug)]
pub struct Can0Clock {
    freq: Hertz,
}

impl Can0Clock {
    /// The frequency of the configured clock, as seen by specifications.
    pub closed spec fn spec_freq(&self) -> Hertz {
        self.freq
    }

    /// Returns the frequency of the configured clock.
    pub fn freq(&self) -> (r: Hertz)
        ensures
            r == self.spec_freq(),
    {
        self.freq
    }
}

/// A typed token that indicates that the clock for the peripheral(s)
/// with the matching name has been configured. The effective clock
/// frequency is available via the `freq` method; peripheral
/// initialization code will typically require this token to prove at
/// compile time that the clock has been correctly initialized.
#[derive(Debug)]
pub struct Can1Clock {
    freq: Hertz,
}

impl Can1Clock {
    /// The frequency of the configured clock, as seen by specifications.
    pub closed spec fn spec_freq(&self) -> Hertz {
        self.freq
    }

    /// Returns the frequency of the configured clock.
    pub fn freq(&self) -> (r: Hertz)
        ensures
            r == self.spec_freq(),
    {
        self.freq
    }
}

/// A typed token that indicates that the clock for the peripheral(s)
/// with the matching name has been configured. The effective clock
/// frequency is available via the `freq` method; peripheral
/// initialization code will typically require this token to prove at
/// compile time that the clock has been correctly initialized.
#[derive(Debug)]
pub struct PdecClock {
    freq: Hertz,
}

impl PdecClock {
    /// The frequency of the configured clock, as seen by specifications.
    pub closed spec fn spec_freq(&self) -> Hertz {
        self.freq
    }

    /// Returns the frequency of the configured clock.
    pub fn freq(&self) -> (r: Hertz)
        ensures
            r == self.spec_freq(),
    {
        self.freq
    }
}

/// A typed token that indicates that the clock for the peripheral(s)
/// with the matching name has been configured. The effective clock
/// frequency is available via the `freq` method; peripheral
/// initialization code will typically require this token to prove at
/// compile time that the clock has been correctly initialized.
#[derive(Debug)]
pub struct AcClock {
    freq: Hertz,
}

impl AcClock {
    /// The frequency of the configured clock, as seen by specifications.
    pub closed spec fn spec_freq(&self) -> Hertz {
        self.freq
    }

    /// Returns the frequency of the configured clock.
    pub fn freq(&self) -> (r: Hertz)
        ensures
            r == self.spec_freq(),
    {
        self.freq
    }
}

/// A typed token that indicates that the clock for the peripheral(s)
/// with the matching name has been configured. The effective clock
/// frequency is available via the `freq` method; peripheral
/// initialization code will typically require this token to prove at
/// compile time that the clock has been correctly initialized.
#[derive(Debug)]
pub struct CclClock {
    freq: Hertz,
}

impl CclClock {
    /// The frequency of the configured clock, as seen by specifications.
    pub closed spec fn spec_freq(&self) -> Hertz {
        self.freq
    }

    /// Returns the frequency of the configured clock.
    pub fn freq(&self) -> (r: Hertz)
        ensures
            r == self.spec_freq(),
    {
        self.freq
    }
}

/// A typed token that indicates that the clock for the peripheral(s)
/// with the matching name has been configured. The effective clock
/// frequency is available via the `freq` method; peripheral
/// initialization code will typically require this token to prove at
/// compile time that the clock has been correctly initialized.
#[derive(Debug)]
pub struct DacClock {
    freq: Hertz,
}

impl DacClock {
    /// The frequency of the configured clock, as seen by specifications.
    pub closed spec fn spec_freq(&self) -> Hertz {
        self.freq
    }

    /// Returns the frequency of the configured clock.
    pub fn freq(&self) -> (r: Hertz)
        ensures
            r == self.spec_freq(),
    {
        self.freq
    }
}

/// A typed token that indicates that the clock for the peripheral(s)
/// with the matching name has been configured. The effective clock
/// frequency is available via the `freq` method; peripheral
/// initialization code will typically require this token to prove at
/// compile time that the clock has been correctly initialized.
#[derive(Debug)]
pub struct I2S0Clock {
    freq: Hertz,
}

impl I2S0Clock {
    /// The frequency of the configured clock, as seen by specifications.
    pub closed spec fn spec_freq(&self) -> Hertz {
        self.freq
    }

    /// Returns the frequency of the configured clock.
    pub fn freq(&self) -> (r: Hertz)
        ensures
            r == self.spec_freq(),
    {
        self.freq
    }
}

/// A typed token that indicates that the clock for the peripheral(s)
/// with the matching name has been configured. The effective clock
/// frequency is available via the `freq` method; peripheral
/// initialization code will typically require this token to prove at
/// compile time that the clock has been correctly initialized.
#[derive(Debug)]
pub struct I2S1Clock {
    freq: Hertz,
}

impl I2S1Clock {
    /// The frequency of the configured clock, as seen by specifications.
    pub closed spec fn spec_freq(&self) -> Hertz {
        self.freq
    }

    /// Returns the frequency of the configured clock.
    pub fn freq(&self) -> (r: Hertz)
        ensures
            r == self.spec_freq(),
    {
        self.freq
    }
}

/// A typed token that indicates that the clock for the peripheral(s)
/// with the matching name has been configured. The effective clock
/// frequency is available via the `freq` method; peripheral
/// initialization code will typically require this token to prove at
/// compile time that the clock has been correctly initialized.
#[derive(Debug)]
pub struct Sdhc0Clock {
    freq: Hertz,
}

impl Sdhc0Clock {
    /// The frequency of the configured clock, as seen by specifications.
    pub closed spec fn spec_freq(&self) -> Hertz {
        self.freq
    }

    /// Returns the frequency of the configured clock.
    pub fn freq(&self) -> (r: Hertz)
        ensures
            r == self.spec_freq(),
    {
        self.freq
    }
}

/// A typed token that indicates that the clock for the peripheral(s)
/// with the matching name has been configured. The effective clock
/// frequency is available via the `freq` method; peripheral
/// initialization code will typically require this token to prove at
/// compile time that the clock has been correctly initialized.
#[derive(Debug)]
pub struct Sdhc1Clock {
    freq: Hertz,
}

impl Sdhc1Clock {
    /// The frequency of the configured clock, as seen by specifications.
    pub closed spec fn spec_freq(&self) -> Hertz {
        self.freq
    }

    /// Returns the frequency of the configured clock.
    pub fn freq(&self) -> (r: Hertz)
        ensures
            r == self.spec_freq(),
    {
        self.freq
    }
}

/// A typed token that indicates that the clock for the peripheral(s)
/// with the matching name has been configured. The effective clock
/// frequency is available via the `freq` method; peripheral
/// initialization code will typically require this token to prove at
/// compile time that the clock has been correctly initialized.
#[derive(Debug)]
pub struct Cm4TraceClock {
    freq: Hertz,
}

impl Cm4TraceClock {
    /// The frequency of the configured clock, as seen by specifications.
    pub closed spec fn spec_freq(&self) -> Hertz {
        self.freq
    }

    /// Returns the frequency of the configured clock.
    pub fn freq(&self) -> (r: Hertz)
        ensures
            r == self.spec_freq(),
    {
        self.freq
    }
}

impl GenericClockController {
    /// Configure the clock for the peripheral(s) that match the name of
    /// this method to use the given clock generator, claiming the
    /// peripheral clock channel. Returns the typed token that proves the
    /// clock is configured, or `None` if the channel has already been
    /// claimed.
    pub fn tc0_tc1(&mut self, generator: &GClock) -> (r: Option<Tc0Tc1Clock>)
        requires
            old(self).wf(),
        ensures
            final(self).wf(),
            r is Some <==> old(self).spec_pclk_free(ClockId::TC0_TC1),
            !old(self).spec_pclk_free(ClockId::TC0_TC1) ==> *final(self) == *old(self),
            old(self).spec_pclk_free(ClockId::TC0_TC1) ==> {
                &&& (r matches Some(t) && t.spec_freq() == old(self).spec_gclks()[generator.spec_gclk().spec_bits() as int])
                &&& final(self).spec_used_clocks() == (old(self).spec_used_clocks() | (1u64 << (
                ClockId::TC0_TC1.spec_index() as u64)))
                &&& final(self).spec_pchctrl() == old(self).spec_pchctrl().update(
                    ClockId::TC0_TC1.spec_index() as int,
                    PchCtrl { gen: generator.spec_gclk().spec_bits(), chen: true },
                )
            },
            final(self).spec_gclks() == old(self).spec_gclks(),
            final(self).spec_genctrl() == old(self).spec_genctrl(),
            final(self).spec_sync_lag() == old(self).spec_sync_lag(),
    {
        match self.claim_pclk(ClockId::TC0_TC1, generator) {
            Some(freq) => Some(Tc0Tc1Clock { freq }),
            None => None,
        }
    }

    /// Configure the clock for the peripheral(s) that match the name of
    /// this method to use the given clock generator, claiming the
    /// peripheral clock channel. Returns the typed token that proves the
    /// clock is configured, or `None` if the channel has already been
    /// claimed.
    pub fn tcc0_tcc1(&mut self, generator: &GClock) -> (r: Option<Tcc0Tcc1Clock>)
        requires
            old(self).wf(),
        ensures
            final(self).wf(),
            r is Some <==> old(self).spec_pclk_free(ClockId::TCC0_TCC1),
            !old(self).spec_pclk_free(ClockId::TCC0_TCC1) ==> *final(self) == *old(self),
            old(self).spec_pclk_free(ClockId::TCC0_TCC1) ==> {
                &&& (r matches Some(t) && t.spec_freq() == old(self).spec_gclks()[generator.spec_gclk().spec_bits() as int])
                &&& final(self).spec_used_clocks() == (old(self).spec_used_clocks() | (1u64 << (
                ClockId::TCC0_TCC1.spec_index() as u64)))
                &&& final(self).spec_pchctrl() == old(self).spec_pchctrl().update(
                    ClockId::TCC0_TCC1.spec_index() as int,
                    PchCtrl { gen: generator.spec_gclk().spec_bits(), chen: true },
                )
            },
            final(self).spec_gclks() == old(self).spec_gclks(),
            final(self).spec_genctrl() == old(self).spec_genctrl(),
            final(self).spec_sync_lag() == old(self).spec_sync_lag(),
    {
        match self.claim_pclk(ClockId::TCC0_TCC1, generator) {
            Some(freq) => Some(Tcc0Tcc1Clock { freq }),
            None => None,
        }
    }

    /// Configure the clock for the peripheral(s) that match the name of
    /// this method to use the given clock generator, claiming the
    /// peripheral clock channel. Returns the typed token that proves the
    /// clock is configured, or `None` if the channel has already been
    /// claimed.
    pub fn tc2_tc3(&mut self, generator: &GClock) -> (r: Option<Tc2Tc3Clock>)
        requires
            old(self).wf(),
        ensures
            final(self).wf(),
            r is Some <==> old(self).spec_pclk_free(ClockId::TC2_TC3),
            !old(self).spec_pclk_free(ClockId::TC2_TC3) ==> *final(self) == *old(self),
            old(self).spec_pclk_free(ClockId::TC2_TC3) ==> {
                &&& (r matches Some(t) && t.spec_freq() == old(self).spec_gclks()[generator.spec_gclk().spec_bits() as int])
                &&& final(self).spec_used_clocks() == (old(self).spec_used_clocks() | (1u64 << (
                ClockId::TC2_TC3.spec_index() as u64)))
                &&& final(self).spec_pchctrl() == old(self).spec_pchctrl().update(
                    ClockId::TC2_TC3.spec_index() as int,
                    PchCtrl { gen: generator.spec_gclk().spec_bits(), chen: true },
                )
            },
            final(self).spec_gclks() == old(self).spec_gclks(),
            final(self).spec_genctrl() == old(self).spec_genctrl(),
            final(self).spec_sync_lag() == old(self).spec_sync_lag(),
    {
        match self.claim_pclk(ClockId::TC2_TC3, generator) {
            Some(freq) => Some(Tc2Tc3Clock { freq }),
            None => None,
        }
    }

    /// Configure the clock for the peripheral(s) that match the name of
    /// this method to use the given clock generator, claiming the
    /// peripheral clock channel. Returns the typed token that proves the
    /// clock is configured, or `None` if the channel has already been
    /// claimed.
    pub fn tcc2_tcc3(&mut self, generator: &GClock) -> (r: Option<Tcc2Tcc3Clock>)
        requires
            old(self).wf(),
        ensures
            final(self).wf(),
            r is Some <==> old(self).spec_pclk_free(ClockId::TCC2_TCC3),
            !old(self).spec_pclk_free(ClockId::TCC2_TCC3) ==> *final(self) == *old(self),
            old(self).spec_pclk_free(ClockId::TCC2_TCC3) ==> {
                &&& (r matches Some(t) && t.spec_freq() == old(self).spec_gclks()[generator.spec_gclk().spec_bits() as int])
                &&& final(self).spec_used_clocks() == (old(self).spec_used_clocks() | (1u64 << (
                ClockId::TCC2_TCC3.spec_index() as u64)))
                &&& final(self).spec_pchctrl() == old(self).spec_pchctrl().update(
                    ClockId::TCC2_TCC3.spec_index() as int,
                    PchCtrl { gen: generator.spec_gclk().spec_bits(), chen: true },
                )
            },
            final(self).spec_gclks() == old(self).spec_gclks(),
            final(self).spec_genctrl() == old(self).spec_genctrl(),
            final(self).spec_sync_lag() == old(self).spec_sync_lag(),
    {
        match self.claim_pclk(ClockId::TCC2_TCC3, generator) {
            Some(freq) => Some(Tcc2Tcc3Clock { freq }),
            None => None,
        }
    }

    /// Configure the clock for the peripheral(s) that match the name of
    /// this method to use the given clock generator, claiming the
    /// peripheral clock channel. Returns the typed token that proves the
    /// clock is configured, or `None` if the channel has already been
    /// claimed.
    pub fn tc4_tc5(&mut self, generator: &GClock) -> (r: Option<Tc4Tc5Clock>)
        requires
            old(self).wf(),
        ensures
            final(self).wf(),
            r is Some <==> old(self).spec_pclk_free(ClockId::TC4_TC5),
            !old(self).spec_pclk_free(ClockId::TC4_TC5) ==> *final(self) == *old(self),
            old(self).spec_pclk_free(ClockId::TC4_TC5) ==> {
                &&& (r matches Some(t) && t.spec_freq() == old(self).spec_gclks()[generator.spec_gclk().spec_bits() as int])
                &&& final(self).spec_used_clocks() == (old(self).spec_used_clocks() | (1u64 << (
                ClockId::TC4_TC5.spec_index() as u64)))
                &&& final(self).spec_pchctrl() == old(self).spec_pchctrl().update(
                    ClockId::TC4_TC5.spec_index() as int,
                    PchCtrl { gen: generator.spec_gclk().spec_bits(), chen: true },
                )
            },
            final(self).spec_gclks() == old(self).spec_gclks(),
            final(self).spec_genctrl() == old(self).spec_genctrl(),
            final(self).spec_sync_lag() == old(self).spec_sync_lag(),
    {
        match self.claim_pclk(ClockId::TC4_TC5, generator) {
            Some(freq) => Some(Tc4Tc5Clock { freq }),
            None => None,
        }
    }

    /// Configure the clock for the peripheral(s) that match the name of
    /// this method to use the given clock generator, claiming the
    /// peripheral clock channel. Returns the typed token that proves the
    /// clock is configured, or `None` if the channel has already been
    /// claimed.
    pub fn tcc4(&mut self, generator: &GClock) -> (r: Option<Tcc4Clock>)
        requires
            old(self).wf(),
        ensures
            final(self).wf(),
            r is Some <==> old(self).spec_pclk_free(ClockId::TCC4),
            !old(self).spec_pclk_free(ClockId::TCC4) ==> *final(self) == *old(self),
            old(self).spec_pclk_free(ClockId::TCC4) ==> {
                &&& (r matches Some(t) && t.spec_freq() == old(self).spec_gclks()[generator.spec_gclk().spec_bits() as int])
                &&& final(self).spec_used_clocks() == (old(self).spec_used_clocks() | (1u64 << (
                ClockId::TCC4.spec_index() as u64)))
                &&& final(self).spec_pchctrl() == old(self).spec_pchctrl().update(
                    ClockId::TCC4.spec_index() as int,
                    PchCtrl { gen: generator.spec_gclk().spec_bits(), chen: true },
                )
            },
            final(self).spec_gclks() == old(self).spec_gclks(),
            final(self).spec_genctrl() == old(self).spec_genctrl(),
            final(self).spec_sync_lag() == old(self).spec_sync_lag(),
    {
        match self.claim_pclk(ClockId::TCC4, generator) {
            Some(freq) => Some(Tcc4Clock { freq }),
            None => None,
        }
    }

    /// Configure the clock for the peripheral(s) that match the name of
    /// this method to use the given clock generator, claiming the
    /// peripheral clock channel. Returns the typed token that proves the
    /// clock is configured, or `None` if the channel has already been
    /// claimed.
    pub fn tc6_tc7(&mut self, generator: &GClock) -> (r: Option<Tc6Tc7Clock>)
        requires
            old(self).wf(),
        ensures
            final(self).wf(),
            r is Some <==> old(self).spec_pclk_free(ClockId::TC6_TC7),
            !old(self).spec_pclk_free(ClockId::TC6_TC7) ==> *final(self) == *old(self),
            old(self).spec_pclk_free(ClockId::TC6_TC7) ==> {
                &&& (r matches Some(t) && t.spec_freq() == old(self).spec_gclks()[generator.spec_gclk().spec_bits() as int])
                &&& final(self).spec_used_clocks() == (old(self).spec_used_clocks() | (1u64 << (
                ClockId::TC6_TC7.spec_index() as u64)))
                &&& final(self).spec_pchctrl() == old(self).spec_pchctrl().update(
                    ClockId::TC6_TC7.spec_index() as int,
                    PchCtrl { gen: generator.spec_gclk().spec_bits(), chen: true },
                )
            },
            final(self).spec_gclks() == old(self).spec_gclks(),
            final(self).spec_genctrl() == old(self).spec_genctrl(),
            final(self).spec_sync_lag() == old(self).spec_sync_lag(),
    {
        match self.claim_pclk(ClockId::TC6_TC7, generator) {
            Some(freq) => Some(Tc6Tc7Clock { freq }),
            None => None,
        }
    }

    /// Configure the clock for the peripheral(s) that match the name of
    /// this method to use the given clock generator, claiming the
    /// peripheral clock channel. Returns the typed token that proves the
    /// clock is configured, or `None` if the channel has already been
    /// claimed.
    pub fn sercom0_core(&mut self, generator: &GClock) -> (r: Option<Sercom0CoreClock>)
        requires
            old(self).wf(),
        ensures
            final(self).wf(),
            r is Some <==> old(self).spec_pclk_free(ClockId::SERCOM0_CORE),
            !old(self).spec_pclk_free(ClockId::SERCOM0_CORE) ==> *final(self) == *old(self),
            old(self).spec_pclk_free(ClockId::SERCOM0_CORE) ==> {
                &&& (r matches Some(t) && t.spec_freq() == old(self).spec_gclks()[generator.spec_gclk().spec_bits() as int])
                &&& final(self).spec_used_clocks() == (old(self).spec_used_clocks() | (1u64 << (
                ClockId::SERCOM0_CORE.spec_index() as u64)))
                &&& final(self).spec_pchctrl() == old(self).spec_pchctrl().update(
                    ClockId::SERCOM0_CORE.spec_index() as int,
                    PchCtrl { gen: generator.spec_gclk().spec_bits(), chen: true },
                )
            },
            final(self).spec_gclks() == old(self).spec_gclks(),
            final(self).spec_genctrl() == old(self).spec_genctrl(),
            final(self).spec_sync_lag() == old(self).spec_sync_lag(),
    {
        match self.claim_pclk(ClockId::SERCOM0_CORE, generator) {
            Some(freq) => Some(Sercom0CoreClock { freq }),
            None => None,
        }
    }

    /// Configure the clock for the peripheral(s) that match the name of
    /// this method to use the given clock generator, claiming the
    /// peripheral clock channel. Returns the typed token that proves the
    /// clock is configured, or `None` if the channel has already been
    /// claimed.
    pub fn sercom1_core(&mut self, generator: &GClock) -> (r: Option<Sercom1CoreClock>)
        requires
            old(self).wf(),
        ensures
            final(self).wf(),
            r is Some <==> old(self).spec_pclk_free(ClockId::SERCOM1_CORE),
            !old(self).spec_pclk_free(ClockId::SERCOM1_CORE) ==> *final(self) == *old(self),
            old(self).spec_pclk_free(ClockId::SERCOM1_CORE) ==> {
                &&& (r matches Some(t) && t.spec_freq() == old(self).spec_gclks()[generator.spec_gclk().spec_bits() as int])
                &&& final(self).spec_used_clocks() == (old(self).spec_used_clocks() | (1u64 << (
                ClockId::SERCOM1_CORE.spec_index() as u64)))
                &&& final(self).spec_pchctrl() == old(self).spec_pchctrl().update(
                    ClockId::SERCOM1_CORE.spec_index() as int,
                    PchCtrl { gen: generator.spec_gclk().spec_bits(), chen: true },
                )
            },
            final(self).spec_gclks() == old(self).spec_gclks(),
            final(self).spec_genctrl() == old(self).spec_genctrl(),
            final(self).spec_sync_lag() == old(self).spec_sync_lag(),
    {
        match self.claim_pclk(ClockId::SERCOM1_CORE, generator) {
            Some(freq) => Some(Sercom1CoreClock { freq }),
            None => None,
        }
    }

    /// Configure the clock for the peripheral(s) that match the name of
    /// this method to use the given clock generator, claiming the
    /// peripheral clock channel. Returns the typed token that proves the
    /// clock is configured, or `None` if the channel has already been
    /// claimed.
    pub fn sercom2_core(&mut self, generator: &GClock) -> (r: Option<Sercom2CoreClock>)
        requires
            old(self).wf(),
        ensures
            final(self).wf(),
            r is Some <==> old(self).spec_pclk_free(ClockId::SERCOM2_CORE),
            !old(self).spec_pclk_free(ClockId::SERCOM2_CORE) ==> *final(self) == *old(self),
            old(self).spec_pclk_free(ClockId::SERCOM2_CORE) ==> {
                &&& (r matches Some(t) && t.spec_freq() == old(self).spec_gclks()[generator.spec_gclk().spec_bits() as int])
                &&& final(self).spec_used_clocks() == (old(self).spec_used_clocks() | (1u64 << (
                ClockId::SERCOM2_CORE.spec_index() as u64)))
                &&& final(self).spec_pchctrl() == old(self).spec_pchctrl().update(
                    ClockId::SERCOM2_CORE.spec_index() as int,
                    PchCtrl { gen: generator.spec_gclk().spec_bits(), chen: true },
                )
            },
            final(self).spec_gclks() == old(self).spec_gclks(),
            final(self).spec_genctrl() == old(self).spec_genctrl(),
            final(self).spec_sync_lag() == old(self).spec_sync_lag(),
    {
        match self.claim_pclk(ClockId::SERCOM2_CORE, generator) {
            Some(freq) => Some(Sercom2CoreClock { freq }),
            None => None,
        }
    }

    /// Configure the clock for the peripheral(s) that match the name of
    /// this method to use the given clock generator, claiming the
    /// peripheral clock channel. Returns the typed token that proves the
    /// clock is configured, or `None` if the channel has already been
    /// claimed.
    pub fn sercom3_core(&mut self, generator: &GClock) -> (r: Option<Sercom3CoreClock>)
        requires
            old(self).wf(),
        ensures
            final(self).wf(),
            r is Some <==> old(self).spec_pclk_free(ClockId::SERCOM3_CORE),
            !old(self).spec_pclk_free(ClockId::SERCOM3_CORE) ==> *final(self) == *old(self),
            old(self).spec_pclk_free(ClockId::SERCOM3_CORE) ==> {
                &&& (r matches Some(t) && t.spec_freq() == old(self).spec_gclks()[generator.spec_gclk().spec_bits() as int])
                &&& final(self).spec_used_clocks() == (old(self).spec_used_clocks() | (1u64 << (
                ClockId::SERCOM3_CORE.spec_index() as u64)))
                &&& final(self).spec_pchctrl() == old(self).spec_pchctrl().update(
                    ClockId::SERCOM3_CORE.spec_index() as int,
                    PchCtrl { gen: generator.spec_gclk().spec_bits(), chen: true },
                )
            },
            final(self).spec_gclks() == old(self).spec_gclks(),
            final(self).spec_genctrl() == old(self).spec_genctrl(),
            final(self).spec_sync_lag() == old(self).spec_sync_lag(),
    {
        match self.claim_pclk(ClockId::SERCOM3_CORE, generator) {
            Some(freq) => Some(Sercom3CoreClock { freq }),
            None => None,
        }
    }

    /// Configure the clock for the peripheral(s) that match the name of
    /// this method to use the given clock generator, claiming the
    /// peripheral clock channel. Returns the typed token that proves the
    /// clock is configured, or `None` if the channel has already been
    /// claimed.
    pub fn sercom4_core(&mut self, generator: &GClock) -> (r: Option<Sercom4CoreClock>)
        requires
            old(self).wf(),
        ensures
            final(self).wf(),
            r is Some <==> old(self).spec_pclk_free(ClockId::SERCOM4_CORE),
            !old(self).spec_pclk_free(ClockId::SERCOM4_CORE) ==> *final(self) == *old(self),
            old(self).spec_pclk_free(ClockId::SERCOM4_CORE) ==> {
                &&& (r matches Some(t) && t.spec_freq() == old(self).spec_gclks()[generator.spec_gclk().spec_bits() as int])
                &&& final(self).spec_used_clocks() == (old(self).spec_used_clocks() | (1u64 << (
                ClockId::SERCOM4_CORE.spec_index() as u64)))
                &&& final(self).spec_pchctrl() == old(self).spec_pchctrl().update(
                    ClockId::SERCOM4_CORE.spec_index() as int,
                    PchCtrl { gen: generator.spec_gclk().spec_bits(), chen: true },
                )
            },
            final(self).spec_gclks() == old(self).spec_gclks(),
            final(self).spec_genctrl() == old(self).spec_genctrl(),
            final(self).spec_sync_lag() == old(self).spec_sync_lag(),
    {
        match self.claim_pclk(ClockId::SERCOM4_CORE, generator) {
            Some(freq) => Some(Sercom4CoreClock { freq }),
            None => None,
        }
    }

    /// Configure the clock for the peripheral(s) that match the name of
    /// this method to use the given clock generator, claiming the
    /// peripheral clock channel. Returns the typed token that proves the
    /// clock is configured, or `None` if the channel has already been
    /// claimed.
    pub fn sercom5_core(&mut self, generator: &GClock) -> (r: Option<Sercom5CoreClock>)
        requires
            old(self).wf(),
        ensures
            final(self).wf(),
            r is Some <==> old(self).spec_pclk_free(ClockId::SERCOM5_CORE),
            !old(self).spec_pclk_free(ClockId::SERCOM5_CORE) ==> *final(self) == *old(self),
            old(self).spec_pclk_free(ClockId::SERCOM5_CORE) ==> {
                &&& (r matches Some(t) && t.spec_freq() == old(self).spec_gclks()[generator.spec_gclk().spec_bits() as int])
                &&& final(self).spec_used_clocks() == (old(self).spec_used_clocks() | (1u64 << (
                ClockId::SERCOM5_CORE.spec_index() as u64)))
                &&& final(self).spec_pchctrl() == old(self).spec_pchctrl().update(
                    ClockId::SERCOM5_CORE.spec_index() as int,
                    PchCtrl { gen: generator.spec_gclk().spec_bits(), chen: true },
                )
            },
            final(self).spec_gclks() == old(self).spec_gclks(),
            final(self).spec_genctrl() == old(self).spec_genctrl(),
            final(self).spec_sync_lag() == old(self).spec_sync_lag(),
    {
        match self.claim_pclk(ClockId::SERCOM5_CORE, generator) {
            Some(freq) => Some(Sercom5CoreClock { freq }),
            None => None,
        }
    }

    /// Configure the clock for the peripheral(s) that match the name of
    /// this method to use the given clock generator, claiming the
    /// peripheral clock channel. Returns the typed token that proves the
    /// clock is configured, or `None` if the channel has already been
    /// claimed.
    pub fn usb(&mut self, generator: &GClock) -> (r: Option<UsbClock>)
        requires
            old(self).wf(),
        ensures
            final(self).wf(),
            r is Some <==> old(self).spec_pclk_free(ClockId::USB),
            !old(self).spec_pclk_free(ClockId::USB) ==> *final(self) == *old(self),
            old(self).spec_pclk_free(ClockId::USB) ==> {
                &&& (r matches Some(t) && t.spec_freq() == old(self).spec_gclks()[generator.spec_gclk().spec_bits() as int])
                &&& final(self).spec_used_clocks() == (old(self).spec_used_clocks() | (1u64 << (
                ClockId::USB.spec_index() as u64)))
                &&& final(self).spec_pchctrl() == old(self).spec_pchctrl().update(
                    ClockId::USB.spec_index() as int,
                    PchCtrl { gen: generator.spec_gclk().spec_bits(), chen: true },
                )
            },
            final(self).spec_gclks() == old(self).spec_gclks(),
            final(self).spec_genctrl() == old(self).spec_genctrl(),
            final(self).spec_sync_lag() == old(self).spec_sync_lag(),
    {
        match self.claim_pclk(ClockId::USB, generator) {
            Some(freq) => Some(UsbClock { freq }),
            None => None,
        }
    }

    /// Configure the clock for the peripheral(s) that match the name of
    /// this method to use the given clock generator, claiming the
    /// peripheral clock channel. Returns the typed token that proves the
    /// clock is configured, or `None` if the channel has already been
    /// claimed.
    pub fn adc0(&mut self, generator: &GClock) -> (r: Option<Adc0Clock>)
        requires
            old(self).wf(),
        ensures
            final(self).wf(),
            r is Some <==> old(self).spec_pclk_free(ClockId::ADC0),
            !old(self).spec_pclk_free(ClockId::ADC0) ==> *final(self) == *old(self),
            old(self).spec_pclk_free(ClockId::ADC0) ==> {
                &&& (r matches Some(t) && t.spec_freq() == old(self).spec_gclks()[generator.spec_gclk().spec_bits() as int])
                &&& final(self).spec_used_clocks() == (old(self).spec_used_clocks() | (1u64 << (
                ClockId::ADC0.spec_index() as u64)))
                &&& final(self).spec_pchctrl() == old(self).spec_pchctrl().update(
                    ClockId::ADC0.spec_index() as int,
                    PchCtrl { gen: generator.spec_gclk().spec_bits(), chen: true },
                )
            },
            final(self).spec_gclks() == old(self).spec_gclks(),
            final(self).spec_genctrl() == old(self).spec_genctrl(),
            final(self).spec_sync_lag() == old(self).spec_sync_lag(),
    {
        match self.claim_pclk(ClockId::ADC0, generator) {
            Some(freq) => Some(Adc0Clock { freq }),
            None => None,
        }
    }

    /// Configure the clock for the peripheral(s) that match the name of
    /// this method to use the given clock generator, claiming the
    /// peripheral clock channel. Returns the typed token that proves the
    /// clock is configured, or `None` if the channel has already been
    /// claimed.
    pub fn adc1(&mut self, generator: &GClock) -> (r: Option<Adc1Clock>)
        requires
            old(self).wf(),
        ensures
            final(self).wf(),
            r is Some <==> old(self).spec_pclk_free(ClockId::ADC1),
            !old(self).spec_pclk_free(ClockId::ADC1) ==> *final(self) == *old(self),
            old(self).spec_pclk_free(ClockId::ADC1) ==> {
                &&& (r matches Some(t) && t.spec_freq() == old(self).spec_gclks()[generator.spec_gclk().spec_bits() as int])
                &&& final(self).spec_used_clocks() == (old(self).spec_used_clocks() | (1u64 << (
                ClockId::ADC1.spec_index() as u64)))
                &&& final(self).spec_pchctrl() == old(self).spec_pchctrl().update(
                    ClockId::ADC1.spec_index() as int,
                    PchCtrl { gen: generator.spec_gclk().spec_bits(), chen: true },
                )
            },
            final(self).spec_gclks() == old(self).spec_gclks(),
            final(self).spec_genctrl() == old(self).spec_genctrl(),
            final(self).spec_sync_lag() == old(self).spec_sync_lag(),
    {
        match self.claim_pclk(ClockId::ADC1, generator) {
            Some(freq) => Some(Adc1Clock { freq }),
            None => None,
        }
    }

    /// Configure the clock for the peripheral(s) that match the name of
    /// this method to use the given clock generator, claiming the
    /// peripheral clock channel. Returns the typed token that proves the
    /// clock is configured, or `None` if the channel has already been
    /// claimed.
    pub fn eic(&mut self, generator: &GClock) -> (r: Option<EicClock>)
        requires
            old(self).wf(),
        ensures
            final(self).wf(),
            r is Some <==> old(self).spec_pclk_free(ClockId::EIC),
            !old(self).spec_pclk_free(ClockId::EIC) ==> *final(self) == *old(self),
            old(self).spec_pclk_free(ClockId::EIC) ==> {
                &&& (r matches Some(t) && t.spec_freq() == old(self).spec_gclks()[generator.spec_gclk().spec_bits() as int])
                &&& final(self).spec_used_clocks() == (old(self).spec_used_clocks() | (1u64 << (
                ClockId::EIC.spec_index() as u64)))
                &&& final(self).spec_pchctrl() == old(self).spec_pchctrl().update(
                    ClockId::EIC.spec_index() as int,
                    PchCtrl { gen: generator.spec_gclk().spec_bits(), chen: true },
                )
            },
            final(self).spec_gclks() == old(self).spec_gclks(),
            final(self).spec_genctrl() == old(self).spec_genctrl(),
            final(self).spec_sync_lag() == old(self).spec_sync_lag(),
    {
        match self.claim_pclk(ClockId::EIC, generator) {
            Some(freq) => Some(EicClock { freq }),
            None => None,
        }
    }

    /// Configure the clock for the peripheral(s) that match the name of
    /// this method to use the given clock generator, claiming the
    /// peripheral clock channel. Returns the typed token that proves the
    /// clock is configured, or `None` if the channel has already been
    /// claimed.
    pub fn freq_m_msr(&mut self, generator: &GClock) -> (r: Option<FreqmMsrClock>)
        requires
            old(self).wf(),
        ensures
            final(self).wf(),
            r is Some <==> old(self).spec_pclk_free(ClockId::FREQM_MSR),
            !old(self).spec_pclk_free(ClockId::FREQM_MSR) ==> *final(self) == *old(self),
            old(self).spec_pclk_free(ClockId::FREQM_MSR) ==> {
                &&& (r matches Some(t) && t.spec_freq() == old(self).spec_gclks()[generator.spec_gclk().spec_bits() as int])
                &&& final(self).spec_used_clocks() == (old(self).spec_used_clocks() | (1u64 << (
                ClockId::FREQM_MSR.spec_index() as u64)))
                &&& final(self).spec_pchctrl() == old(self).spec_pchctrl().update(
                    ClockId::FREQM_MSR.spec_index() as int,
                    PchCtrl { gen: generator.spec_gclk().spec_bits(), chen: true },
                )
            },
            final(self).spec_gclks() == old(self).spec_gclks(),
            final(self).spec_genctrl() == old(self).spec_genctrl(),
            final(self).spec_sync_lag() == old(self).spec_sync_lag(),
    {
        match self.claim_pclk(ClockId::FREQM_MSR, generator) {
            Some(freq) => Some(FreqmMsrClock { freq }),
            None => None,
        }
    }

    /// Configure the clock for the peripheral(s) that match the name of
    /// this method to use the given clock generator, claiming the
    /// peripheral clock channel. Returns the typed token that proves the
    /// clock is configured, or `None` if the channel has already been
    /// claimed.
    pub fn freq_m_ref(&mut self, generator: &GClock) -> (r: Option<FreqmRefClock>)
        requires
            old(self).wf(),
        ensures
            final(self).wf(),
            r is Some <==> old(self).spec_pclk_free(ClockId::FREQM_REF),
            !old(self).spec_pclk_free(ClockId::FREQM_REF) ==> *final(self) == *old(self),
            old(self).spec_pclk_free(ClockId::FREQM_REF) ==> {
                &&& (r matches Some(t) && t.spec_freq() == old(self).spec_gclks()[generator.spec_gclk().spec_bits() as int])
                &&& final(self).spec_used_clocks() == (old(self).spec_used_clocks() | (1u64 << (
                ClockId::FREQM_REF.spec_index() as u64)))
                &&& final(self).spec_pchctrl() == old(self).spec_pchctrl().update(
                    ClockId::FREQM_REF.spec_index() as int,
                    PchCtrl { gen: generator.spec_gclk().spec_bits(), chen: true },
                )
            },
            final(self).spec_gclks() == old(self).spec_gclks(),
            final(self).spec_genctrl() == old(self).spec_genctrl(),
            final(self).spec_sync_lag() == old(self).spec_sync_lag(),
    {
        match self.claim_pclk(ClockId::FREQM_REF, generator) {
            Some(freq) => Some(FreqmRefClock { freq }),
            None => None,
        }
    }

    /// Configure the clock for the peripheral(s) that match the name of
    /// this method to use the given clock generator, claiming the
    /// peripheral clock channel. Returns the typed token that proves the
    /// clock is configured, or `None` if the channel has already been
    /// claimed.
    pub fn evsys0(&mut self, generator: &GClock) -> (r: Option<Evsys0Clock>)
        requires
            old(self).wf(),
        ensures
            final(self).wf(),
            r is Some <==> old(self).spec_pclk_free(ClockId::EVSYS0),
            !old(self).spec_pclk_free(ClockId::EVSYS0) ==> *final(self) == *old(self),
            old(self).spec_pclk_free(ClockId::EVSYS0) ==> {
                &&& (r matches Some(t) && t.spec_freq() == old(self).spec_gclks()[generator.spec_gclk().spec_bits() as int])
                &&& final(self).spec_used_clocks() == (old(self).spec_used_clocks() | (1u64 << (
                ClockId::EVSYS0.spec_index() as u64)))
                &&& final(self).spec_pchctrl() == old(self).spec_pchctrl().update(
                    ClockId::EVSYS0.spec_index() as int,
                    PchCtrl { gen: generator.spec_gclk().spec_bits(), chen: true },
                )
            },
            final(self).spec_gclks() == old(self).spec_gclks(),
            final(self).spec_genctrl() == old(self).spec_genctrl(),
            final(self).spec_sync_lag() == old(self).spec_sync_lag(),
    {
        match self.claim_pclk(ClockId::EVSYS0, generator) {
            Some(freq) => Some(Evsys0Clock { freq }),
            None => None,
        }
    }

    /// Configure the clock for the peripheral(s) that match the name of
    /// this method to use the given clock generator, claiming the
    /// peripheral clock channel. Returns the typed token that proves the
    /// clock is configured, or `None` if the channel has already been
    /// claimed.
    pub fn evsys1(&mut self, generator: &GClock) -> (r: Option<Evsys1Clock>)
        requires
            old(self).wf(),
        ensures
            final(self).wf(),
            r is Some <==> old(self).spec_pclk_free(ClockId::EVSYS1),
            !old(self).spec_pclk_free(ClockId::EVSYS1) ==> *final(self) == *old(self),
            old(self).spec_pclk_free(ClockId::EVSYS1) ==> {
                &&& (r matches Some(t) && t.spec_freq() == old(self).spec_gclks()[generator.spec_gclk().spec_bits() as int])
                &&& final(self).spec_used_clocks() == (old(self).spec_used_clocks() | (1u64 << (
                ClockId::EVSYS1.spec_index() as u64)))
                &&& final(self).spec_pchctrl() == old(self).spec_pchctrl().update(
                    ClockId::EVSYS1.spec_index() as int,
                    PchCtrl { gen: generator.spec_gclk().spec_bits(), chen: true },
                )
            },
            final(self).spec_gclks() == old(self).spec_gclks(),
            final(self).spec_genctrl() == old(self).spec_genctrl(),
            final(self).spec_sync_lag() == old(self).spec_sync_lag(),
    {
        match self.claim_pclk(ClockId::EVSYS1, generator) {
            Some(freq) => Some(Evsys1Clock { freq }),
            None => None,
        }
    }

    /// Configure the clock for the peripheral(s) that match the name of
    /// this method to use the given clock generator, claiming the
    /// peripheral clock channel. Returns the typed token that proves the
    /// clock is configured, or `None` if the channel has already been
    /// claimed.
    pub fn evsys2(&mut self, generator: &GClock) -> (r: Option<Evsys2Clock>)
        requires
            old(self).wf(),
        ensures
            final(self).wf(),
            r is Some <==> old(self).spec_pclk_free(ClockId::EVSYS2),
            !old(self).spec_pclk_free(ClockId::EVSYS2) ==> *final(self) == *old(self),
            old(self).spec_pclk_free(ClockId::EVSYS2) ==> {
                &&& (r matches Some(t) && t.spec_freq() == old(self).spec_gclks()[generator.spec_gclk().spec_bits() as int])
                &&& final(self).spec_used_clocks() == (old(self).spec_used_clocks() | (1u64 << (
                ClockId::EVSYS2.spec_index() as u64)))
                &&& final(self).spec_pchctrl() == old(self).spec_pchctrl().update(
                    ClockId::EVSYS2.spec_index() as int,
                    PchCtrl { gen: generator.spec_gclk().spec_bits(), chen: true },
                )
            },
            final(self).spec_gclks() == old(self).spec_gclks(),
            final(self).spec_genctrl() == old(self).spec_genctrl(),
            final(self).spec_sync_lag() == old(self).spec_sync_lag(),
    {
        match self.claim_pclk(ClockId::EVSYS2, generator) {
            Some(freq) => Some(Evsys2Clock { freq }),
            None => None,
        }
    }

    /// Configure the clock for the peripheral(s) that match the name of
    /// this method to use the given clock generator, claiming the
    /// peripheral clock channel. Returns the typed token that proves the
    /// clock is configured, or `None` if the channel has already been
    /// claimed.
    pub fn evsys3(&mut self, generator: &GClock) -> (r: Option<Evsys3Clock>)
        requires
            old(self).wf(),
        ensures
            final(self).wf(),
            r is Some <==> old(self).spec_pclk_free(ClockId::EVSYS3),
            !old(self).spec_pclk_free(ClockId::EVSYS3) ==> *final(self) == *old(self),
            old(self).spec_pclk_free(ClockId::EVSYS3) ==> {
                &&& (r matches Some(t) && t.spec_freq() == old(self).spec_gclks()[generator.spec_gclk().spec_bits() as int])
                &&& final(self).spec_used_clocks() == (old(self).spec_used_clocks() | (1u64 << (
                ClockId::EVSYS3.spec_index() as u64)))
                &&& final(self).spec_pchctrl() == old(self).spec_pchctrl().update(
                    ClockId::EVSYS3.spec_index() as int,
                    PchCtrl { gen: generator.spec_gclk().spec_bits(), chen: true },
                )
            },
            final(self).spec_gclks() == old(self).spec_gclks(),
            final(self).spec_genctrl() == old(self).spec_genctrl(),
            final(self).spec_sync_lag() == old(self).spec_sync_lag(),
    {
        match self.claim_pclk(ClockId::EVSYS3, generator) {
            Some(freq) => Some(Evsys3Clock { freq }),
            None => None,
        }
    }

    /// Configure the clock for the peripheral(s) that match the name of
    /// this method to use the given clock generator, claiming the
    /// peripheral clock channel. Returns the typed token that proves the
    /// clock is configured, or `None` if the channel has already been
    /// claimed.
    pub fn evsys4(&mut self, generator: &GClock) -> (r: Option<Evsys4Clock>)
        requires
            old(self).wf(),
        ensures
            final(self).wf(),
            r is Some <==> old(self).spec_pclk_free(ClockId::EVSYS4),
            !old(self).spec_pclk_free(ClockId::EVSYS4) ==> *final(self) == *old(self),
            old(self).spec_pclk_free(ClockId::EVSYS4) ==> {
                &&& (r matches Some(t) && t.spec_freq() == old(self).spec_gclks()[generator.spec_gclk().spec_bits() as int])
                &&& final(self).spec_used_clocks() == (old(self).spec_used_clocks() | (1u64 << (
                ClockId::EVSYS4.spec_index() as u64)))
                &&& final(self).spec_pchctrl() == old(self).spec_pchctrl().update(
                    ClockId::EVSYS4.spec_index() as int,
                    PchCtrl { gen: generator.spec_gclk().spec_bits(), chen: true },
                )
            },
            final(self).spec_gclks() == old(self).spec_gclks(),
            final(self).spec_genctrl() == old(self).spec_genctrl(),
            final(self).spec_sync_lag() == old(self).spec_sync_lag(),
    {
        match self.claim_pclk(ClockId::EVSYS4, generator) {
            Some(freq) => Some(Evsys4Clock { freq }),
            None => None,
        }
    }

    /// Configure the clock for the peripheral(s) that match the name of
    /// this method to use the given clock generator, claiming the
    /// peripheral clock channel. Returns the typed token that proves the
    /// clock is configured, or `None` if the channel has already been
    /// claimed.
    pub fn evsys5(&mut self, generator: &GClock) -> (r: Option<Evsys5Clock>)
        requires
            old(self).wf(),
        ensures
            final(self).wf(),
            r is Some <==> old(self).spec_pclk_free(ClockId::EVSYS5),
            !old(self).spec_pclk_free(ClockId::EVSYS5) ==> *final(self) == *old(self),
            old(self).spec_pclk_free(ClockId::EVSYS5) ==> {
                &&& (r matches Some(t) && t.spec_freq() == old(self).spec_gclks()[generator.spec_gclk().spec_bits() as int])
                &&& final(self).spec_used_clocks() == (old(self).spec_used_clocks() | (1u64 << (
                ClockId::EVSYS5.spec_index() as u64)))
                &&& final(self).spec_pchctrl() == old(self).spec_pchctrl().update(
                    ClockId::EVSYS5.spec_index() as int,
                    PchCtrl { gen: generator.spec_gclk().spec_bits(), chen: true },
                )
            },
            final(self).spec_gclks() == old(self).spec_gclks(),
            final(self).spec_genctrl() == old(self).spec_genctrl(),
            final(self).spec_sync_lag() == old(self).spec_sync_lag(),
    {
        match self.claim_pclk(ClockId::EVSYS5, generator) {
            Some(freq) => Some(Evsys5Clock { freq }),
            None => None,
        }
    }

    /// Configure the clock for the peripheral(s) that match the name of
    /// this method to use the given clock generator, claiming the
    /// peripheral clock channel. Returns the typed token that proves the
    /// clock is configured, or `None` if the channel has already been
    /// claimed.
    pub fn evsys6(&mut self, generator: &GClock) -> (r: Option<Evsys6Clock>)
        requires
            old(self).wf(),
        ensures
            final(self).wf(),
            r is Some <==> old(self).spec_pclk_free(ClockId::EVSYS6),
            !old(self).spec_pclk_free(ClockId::EVSYS6) ==> *final(self) == *old(self),
            old(self).spec_pclk_free(ClockId::EVSYS6) ==> {
                &&& (r matches Some(t) && t.spec_freq() == old(self).spec_gclks()[generator.spec_gclk().spec_bits() as int])
                &&& final(self).spec_used_clocks() == (old(self).spec_used_clocks() | (1u64 << (
                ClockId::EVSYS6.spec_index() as u64)))
                &&& final(self).spec_pchctrl() == old(self).spec_pchctrl().update(
                    ClockId::EVSYS6.spec_index() as int,
                    PchCtrl { gen: generator.spec_gclk().spec_bits(), chen: true },
                )
            },
            final(self).spec_gclks() == old(self).spec_gclks(),
            final(self).spec_genctrl() == old(self).spec_genctrl(),
            final(self).spec_sync_lag() == old(self).spec_sync_lag(),
    {
        match self.claim_pclk(ClockId::EVSYS6, generator) {
            Some(freq) => Some(Evsys6Clock { freq }),
            None => None,
        }
    }

    /// Configure the clock for the peripheral(s) that match the name of
    /// this method to use the given clock generator, claiming the
    /// peripheral clock channel. Returns the typed token that proves the
    /// clock is configured, or `None` if the channel has already been
    /// claimed.
    pub fn evsys7(&mut self, generator: &GClock) -> (r: Option<Evsys7Clock>)
        requires
            old(self).wf(),
        ensures
            final(self).wf(),
            r is Some <==> old(self).spec_pclk_free(ClockId::EVSYS7),
            !old(self).spec_pclk_free(ClockId::EVSYS7) ==> *final(self) == *old(self),
            old(self).spec_pclk_free(ClockId::EVSYS7) ==> {
                &&& (r matches Some(t) && t.spec_freq() == old(self).spec_gclks()[generator.spec_gclk().spec_bits() as int])
                &&& final(self).spec_used_clocks() == (old(self).spec_used_clocks() | (1u64 << (
                ClockId::EVSYS7.spec_index() as u64)))
                &&& final(self).spec_pchctrl() == old(self).spec_pchctrl().update(
                    ClockId::EVSYS7.spec_index() as int,
                    PchCtrl { gen: generator.spec_gclk().spec_bits(), chen: true },
                )
            },
            final(self).spec_gclks() == old(self).spec_gclks(),
            final(self).spec_genctrl() == old(self).spec_genctrl(),
            final(self).spec_sync_lag() == old(self).spec_sync_lag(),
    {
        match self.claim_pclk(ClockId::EVSYS7, generator) {
            Some(freq) => Some(Evsys7Clock { freq }),
            None => None,
        }
    }

    /// Configure the clock for the peripheral(s) that match the name of
    /// this method to use the given clock generator, claiming the
    /// peripheral clock channel. Returns the typed token that proves the
    /// clock is configured, or `None` if the channel has already been
    /// claimed.
    pub fn evsys8(&mut self, generator: &GClock) -> (r: Option<Evsys8Clock>)
        requires
            old(self).wf(),
        ensures
            final(self).wf(),
            r is Some <==> old(self).spec_pclk_free(ClockId::EVSYS8),
            !old(self).spec_pclk_free(ClockId::EVSYS8) ==> *final(self) == *old(self),
            old(self).spec_pclk_free(ClockId::EVSYS8) ==> {
                &&& (r matches Some(t) && t.spec_freq() == old(self).spec_gclks()[generator.spec_gclk().spec_bits() as int])
                &&& final(self).spec_used_clocks() == (old(self).spec_used_clocks() | (1u64 << (
                ClockId::EVSYS8.spec_index() as u64)))
                &&& final(self).spec_pchctrl() == old(self).spec_pchctrl().update(
                    ClockId::EVSYS8.spec_index() as int,
                    PchCtrl { gen: generator.spec_gclk().spec_bits(), chen: true },
                )
            },
            final(self).spec_gclks() == old(self).spec_gclks(),
            final(self).spec_genctrl() == old(self).spec_genctrl(),
            final(self).spec_sync_lag() == old(self).spec_sync_lag(),
    {
        match self.claim_pclk(ClockId::EVSYS8, generator) {
            Some(freq) => Some(Evsys8Clock { freq }),
            None => None,
        }
    }

    /// Configure the clock for the peripheral(s) that match the name of
    /// this method to use the given clock generator, claiming the
    /// peripheral clock channel. Returns the typed token that proves the
    /// clock is configured, or `None` if the channel has already been
    /// claimed.
    pub fn evsys9(&mut self, generator: &GClock) -> (r: Option<Evsys9Clock>)
        requires
            old(self).wf(),
        ensures
            final(self).wf(),
            r is Some <==> old(self).spec_pclk_free(ClockId::EVSYS9),
            !old(self).spec_pclk_free(ClockId::EVSYS9) ==> *final(self) == *old(self),
            old(self).spec_pclk_free(ClockId::EVSYS9) ==> {
                &&& (r matches Some(t) && t.spec_freq() == old(self).spec_gclks()[generator.spec_gclk().spec_bits() as int])
                &&& final(self).spec_used_clocks() == (old(self).spec_used_clocks() | (1u64 << (
                ClockId::EVSYS9.spec_index() as u64)))
                &&& final(self).spec_pchctrl() == old(self).spec_pchctrl().update(
                    ClockId::EVSYS9.spec_index() as int,
                    PchCtrl { gen: generator.spec_gclk().spec_bits(), chen: true },
                )
            },
            final(self).spec_gclks() == old(self).spec_gclks(),
            final(self).spec_genctrl() == old(self).spec_genctrl(),
            final(self).spec_sync_lag() == old(self).spec_sync_lag(),
    {
        match self.claim_pclk(ClockId::EVSYS9, generator) {
            Some(freq) => Some(Evsys9Clock { freq }),
            None => None,
        }
    }

    /// Configure the clock for the peripheral(s) that match the name of
    /// this method to use the given clock generator, claiming the
    /// peripheral clock channel. Returns the typed token that proves the
    /// clock is configured, or `None` if the channel has already been
    /// claimed.
    pub fn evsys10(&mut self, generator: &GClock) -> (r: Option<Evsys10Clock>)
        requires
            old(self).wf(),
        ensures
            final(self).wf(),
            r is Some <==> old(self).spec_pclk_free(ClockId::EVSYS10),
            !old(self).spec_pclk_free(ClockId::EVSYS10) ==> *final(self) == *old(self),
            old(self).spec_pclk_free(ClockId::EVSYS10) ==> {
                &&& (r matches Some(t) && t.spec_freq() == old(self).spec_gclks()[generator.spec_gclk().spec_bits() as int])
                &&& final(self).spec_used_clocks() == (old(self).spec_used_clocks() | (1u64 << (
                ClockId::EVSYS10.spec_index() as u64)))
                &&& final(self).spec_pchctrl() == old(self).spec_pchctrl().update(
                    ClockId::EVSYS10.spec_index() as int,
                    PchCtrl { gen: generator.spec_gclk().spec_bits(), chen: true },
                )
            },
            final(self).spec_gclks() == old(self).spec_gclks(),
            final(self).spec_genctrl() == old(self).spec_genctrl(),
            final(self).spec_sync_lag() == old(self).spec_sync_lag(),
    {
        match self.claim_pclk(ClockId::EVSYS10, generator) {
            Some(freq) => Some(Evsys10Clock { freq }),
            None => None,
        }
    }

    /// Configure the clock for the peripheral(s) that match the name of
    /// this method to use the given clock generator, claiming the
    /// peripheral clock channel. Returns the typed token that proves the
    /// clock is configured, or `None` if the channel has already been
    /// claimed.
    pub fn evsys11(&mut self, generator: &GClock) -> (r: Option<Evsys11Clock>)
        requires
            old(self).wf(),
        ensures
            final(self).wf(),
            r is Some <==> old(self).spec_pclk_free(ClockId::EVSYS11),
            !old(self).spec_pclk_free(ClockId::EVSYS11) ==> *final(self) == *old(self),
            old(self).spec_pclk_free(ClockId::EVSYS11) ==> {
                &&& (r matches Some(t) && t.spec_freq() == old(self).spec_gclks()[generator.spec_gclk().spec_bits() as int])
                &&& final(self).spec_used_clocks() == (old(self).spec_used_clocks() | (1u64 << (
                ClockId::EVSYS11.spec_index() as u64)))
                &&& final(self).spec_pchctrl() == old(self).spec_pchctrl().update(
                    ClockId::EVSYS11.spec_index() as int,
                    PchCtrl { gen: generator.spec_gclk().spec_bits(), chen: true },
                )
            },
            final(self).spec_gclks() == old(self).spec_gclks(),
            final(self).spec_genctrl() == old(self).spec_genctrl(),
            final(self).spec_sync_lag() == old(self).spec_sync_lag(),
    {
        match self.claim_pclk(ClockId::EVSYS11, generator) {
            Some(freq) => Some(Evsys11Clock { freq }),
            None => None,
        }
    }

    /// Configure the clock for the peripheral(s) that match the name of
    /// this method to use the given clock generator, claiming the
    /// peripheral clock channel. Returns the typed token that proves the
    /// clock is configured, or `None` if the channel has already been
    /// claimed.
    pub fn can0(&mut self, generator: &GClock) -> (r: Option<Can0Clock>)
        requires
            old(self).wf(),
        ensures
            final(self).wf(),
            r is Some <==> old(self).spec_pclk_free(ClockId::CAN0),
            !old(self).spec_pclk_free(ClockId::CAN0) ==> *final(self) == *old(self),
            old(self).spec_pclk_free(ClockId::CAN0) ==> {
                &&& (r matches Some(t) && t.spec_freq() == old(self).spec_gclks()[generator.spec_gclk().spec_bits() as int])
                &&& final(self).spec_used_clocks() == (old(self).spec_used_clocks() | (1u64 << (
                ClockId::CAN0.spec_index() as u64)))
                &&& final(self).spec_pchctrl() == old(self).spec_pchctrl().update(
                    ClockId::CAN0.spec_index() as int,
                    PchCtrl { gen: generator.spec_gclk().spec_bits(), chen: true },
                )
            },
            final(self).spec_gclks() == old(self).spec_gclks(),
            final(self).spec_genctrl() == old(self).spec_genctrl(),
            final(self).spec_sync_lag() == old(self).spec_sync_lag(),
    {
        match self.claim_pclk(ClockId::CAN0, generator) {
            Some(freq) => Some(Can0Clock { freq }),
            None => None,
        }
    }

    /// Configure the clock for the peripheral(s) that match the name of
    /// this method to use the given clock generator, claiming the
    /// peripheral clock channel. Returns the typed token that proves the
    /// clock is configured, or `None` if the channel has already been
    /// claimed.
    pub fn can1(&mut self, generator: &GClock) -> (r: Option<Can1Clock>)
        requires
            old(self).wf(),
        ensures
            final(self).wf(),
            r is Some <==> old(self).spec_pclk_free(ClockId::CAN1),
            !old(self).spec_pclk_free(ClockId::CAN1) ==> *final(self) == *old(self),
            old(self).spec_pclk_free(ClockId::CAN1) ==> {
                &&& (r matches Some(t) && t.spec_freq() == old(self).spec_gclks()[generator.spec_gclk().spec_bits() as int])
                &&& final(self).spec_used_clocks() == (old(self).spec_used_clocks() | (1u64 << (
                ClockId::CAN1.spec_index() as u64)))
                &&& final(self).spec_pchctrl() == old(self).spec_pchctrl().update(
                    ClockId::CAN1.spec_index() as int,
                    PchCtrl { gen: generator.spec_gclk().spec_bits(), chen: true },
                )
            },
            final(self).spec_gclks() == old(self).spec_gclks(),
            final(self).spec_genctrl() == old(self).spec_genctrl(),
            final(self).spec_sync_lag() == old(self).spec_sync_lag(),
    {
        match self.claim_pclk(ClockId::CAN1, generator) {
            Some(freq) => Some(Can1Clock { freq }),
            None => None,
        }
    }

    /// Configure the clock for the peripheral(s) that match the name of
    /// this method to use the given clock generator, claiming the
    /// peripheral clock channel. Returns the typed token that proves the
    /// clock is configured, or `None` if the channel has already been
    /// claimed.
    pub fn pdec(&mut self, generator: &GClock) -> (r: Option<PdecClock>)
        requires
            old(self).wf(),
        ensures
            final(self).wf(),
            r is Some <==> old(self).spec_pclk_free(ClockId::PDEC),
            !old(self).spec_pclk_free(ClockId::PDEC) ==> *final(self) == *old(self),
            old(self).spec_pclk_free(ClockId::PDEC) ==> {
                &&& (r matches Some(t) && t.spec_freq() == old(self).spec_gclks()[generator.spec_gclk().spec_bits() as int])
                &&& final(self).spec_used_clocks() == (old(self).spec_used_clocks() | (1u64 << (
                ClockId::PDEC.spec_index() as u64)))
                &&& final(self).spec_pchctrl() == old(self).spec_pchctrl().update(
                    ClockId::PDEC.spec_index() as int,
                    PchCtrl { gen: generator.spec_gclk().spec_bits(), chen: true },
                )
            },
            final(self).spec_gclks() == old(self).spec_gclks(),
            final(self).spec_genctrl() == old(self).spec_genctrl(),
            final(self).spec_sync_lag() == old(self).spec_sync_lag(),
    {
        match self.claim_pclk(ClockId::PDEC, generator) {
            Some(freq) => Some(PdecClock { freq }),
            None => None,
        }
    }

    /// Configure the clock for the peripheral(s) that match the name of
    /// this method to use the given clock generator, claiming the
    /// peripheral clock channel. Returns the typed token that proves the
    /// clock is configured, or `None` if the channel has already been
    /// claimed.
    pub fn ac(&mut self, generator: &GClock) -> (r: Option<AcClock>)
        requires
            old(self).wf(),
        ensures
            final(self).wf(),
            r is Some <==> old(self).spec_pclk_free(ClockId::AC),
            !old(self).spec_pclk_free(ClockId::AC) ==> *final(self) == *old(self),
            old(self).spec_pclk_free(ClockId::AC) ==> {
                &&& (r matches Some(t) && t.spec_freq() == old(self).spec_gclks()[generator.spec_gclk().spec_bits() as int])
                &&& final(self).spec_used_clocks() == (old(self).spec_used_clocks() | (1u64 << (
                ClockId::AC.spec_index() as u64)))
                &&& final(self).spec_pchctrl() == old(self).spec_pchctrl().update(
                    ClockId::AC.spec_index() as int,
                    PchCtrl { gen: generator.spec_gclk().spec_bits(), chen: true },
                )
            },
            final(self).spec_gclks() == old(self).spec_gclks(),
            final(self).spec_genctrl() == old(self).spec_genctrl(),
            final(self).spec_sync_lag() == old(self).spec_sync_lag(),
    {
        match self.claim_pclk(ClockId::AC, generator) {
            Some(freq) => Some(AcClock { freq }),
            None => None,
        }
    }

    /// Configure the clock for the peripheral(s) that match the name of
    /// this method to use the given clock generator, claiming the
    /// peripheral clock channel. Returns the typed token that proves the
    /// clock is configured, or `None` if the channel has already been
    /// claimed.
    pub fn ccl(&mut self, generator: &GClock) -> (r: Option<CclClock>)
        requires
            old(self).wf(),
        ensures
            final(self).wf(),
            r is Some <==> old(self).spec_pclk_free(ClockId::CCL),
            !old(self).spec_pclk_free(ClockId::CCL) ==> *final(self) == *old(self),
            old(self).spec_pclk_free(ClockId::CCL) ==> {
                &&& (r matches Some(t) && t.spec_freq() == old(self).spec_gclks()[generator.spec_gclk().spec_bits() as int])
                &&& final(self).spec_used_clocks() == (old(self).spec_used_clocks() | (1u64 << (
                ClockId::CCL.spec_index() as u64)))
                &&& final(self).spec_pchctrl() == old(self).spec_pchctrl().update(
                    ClockId::CCL.spec_index() as int,
                    PchCtrl { gen: generator.spec_gclk().spec_bits(), chen: true },
                )
            },
            final(self).spec_gclks() == old(self).spec_gclks(),
            final(self).spec_genctrl() == old(self).spec_genctrl(),
            final(self).spec_sync_lag() == old(self).spec_sync_lag(),
    {
        match self.claim_pclk(ClockId::CCL, generator) {
            Some(freq) => Some(CclClock { freq }),
            None => None,
        }
    }

    /// Configure the clock for the peripheral(s) that match the name of
    /// this method to use the given clock generator, claiming the
    /// peripheral clock channel. Returns the typed token that proves the
    /// clock is configured, or `None` if the channel has already been
    /// claimed.
    pub fn dac(&mut self, generator: &GClock) -> (r: Option<DacClock>)
        requires
            old(self).wf(),
        ensures
            final(self).wf(),
            r is Some <==> old(self).spec_pclk_free(ClockId::DAC),
            !old(self).spec_pclk_free(ClockId::DAC) ==> *final(self) == *old(self),
            old(self).spec_pclk_free(ClockId::DAC) ==> {
                &&& (r matches Some(t) && t.spec_freq() == old(self).spec_gclks()[generator.spec_gclk().spec_bits() as int])
                &&& final(self).spec_used_clocks() == (old(self).spec_used_clocks() | (1u64 << (
                ClockId::DAC.spec_index() as u64)))
                &&& final(self).spec_pchctrl() == old(self).spec_pchctrl().update(
                    ClockId::DAC.spec_index() as int,
                    PchCtrl { gen: generator.spec_gclk().spec_bits(), chen: true },
                )
            },
            final(self).spec_gclks() == old(self).spec_gclks(),
            final(self).spec_genctrl() == old(self).spec_genctrl(),
            final(self).spec_sync_lag() == old(self).spec_sync_lag(),
    {
        match self.claim_pclk(ClockId::DAC, generator) {
            Some(freq) => Some(DacClock { freq }),
            None => None,
        }
    }

    /// Configure the clock for the peripheral(s) that match the name of
    /// this method to use the given clock generator, claiming the
    /// peripheral clock channel. Returns the typed token that proves the
    /// clock is configured, or `None` if the channel has already been
    /// claimed.
    pub fn i2s0(&mut self, generator: &GClock) -> (r: Option<I2S0Clock>)
        requires
            old(self).wf(),
        ensures
            final(self).wf(),
            r is Some <==> old(self).spec_pclk_free(ClockId::I2S0),
            !old(self).spec_pclk_free(ClockId::I2S0) ==> *final(self) == *old(self),
            old(self).spec_pclk_free(ClockId::I2S0) ==> {
                &&& (r matches Some(t) && t.spec_freq() == old(self).spec_gclks()[generator.spec_gclk().spec_bits() as int])
                &&& final(self).spec_used_clocks() == (old(self).spec_used_clocks() | (1u64 << (
                ClockId::I2S0.spec_index() as u64)))
                &&& final(self).spec_pchctrl() == old(self).spec_pchctrl().update(
                    ClockId::I2S0.spec_index() as int,
                    PchCtrl { gen: generator.spec_gclk().spec_bits(), chen: true },
                )
            },
            final(self).spec_gclks() == old(self).spec_gclks(),
            final(self).spec_genctrl() == old(self).spec_genctrl(),
            final(self).spec_sync_lag() == old(self).spec_sync_lag(),
    {
        match self.claim_pclk(ClockId::I2S0, generator) {
            Some(freq) => Some(I2S0Clock { freq }),
            None => None,
        }
    }

    /// Configure the clock for the peripheral(s) that match the name of
    /// this method to use the given clock generator, claiming the
    /// peripheral clock channel. Returns the typed token that proves the
    /// clock is configured, or `None` if the channel has already been
    /// claimed.
    pub fn i2s1(&mut self, generator: &GClock) -> (r: Option<I2S1Clock>)
        requires
            old(self).wf(),
        ensures
            final(self).wf(),
            r is Some <==> old(self).spec_pclk_free(ClockId::I2S1),
            !old(self).spec_pclk_free(ClockId::I2S1) ==> *final(self) == *old(self),
            old(self).spec_pclk_free(ClockId::I2S1) ==> {
                &&& (r matches Some(t) && t.spec_freq() == old(self).spec_gclks()[generator.spec_gclk().spec_bits() as int])
                &&& final(self).spec_used_clocks() == (old(self).spec_used_clocks() | (1u64 << (
                ClockId::I2S1.spec_index() as u64)))
                &&& final(self).spec_pchctrl() == old(self).spec_pchctrl().update(
                    ClockId::I2S1.spec_index() as int,
                    PchCtrl { gen: generator.spec_gclk().spec_bits(), chen: true },
                )
            },
            final(self).spec_gclks() == old(self).spec_gclks(),
            final(self).spec_genctrl() == old(self).spec_genctrl(),
            final(self).spec_sync_lag() == old(self).spec_sync_lag(),
    {
        match self.claim_pclk(ClockId::I2S1, generator) {
            Some(freq) => Some(I2S1Clock { freq }),
            None => None,
        }
    }

    /// Configure the clock for the peripheral(s) that match the name of
    /// this method to use the given clock generator, claiming the
    /// peripheral clock channel. Returns the typed token that proves the
    /// clock is configured, or `None` if the channel has already been
    /// claimed.
    pub fn sdhc0(&mut self, generator: &GClock) -> (r: Option<Sdhc0Clock>)
        requires
            old(self).wf(),
        ensures
            final(self).wf(),
            r is Some <==> old(self).spec_pclk_free(ClockId::SDHC0),
            !old(self).spec_pclk_free(ClockId::SDHC0) ==> *final(self) == *old(self),
            old(self).spec_pclk_free(ClockId::SDHC0) ==> {
                &&& (r matches Some(t) && t.spec_freq() == old(self).spec_gclks()[generator.spec_gclk().spec_bits() as int])
                &&& final(self).spec_used_clocks() == (old(self).spec_used_clocks() | (1u64 << (
                ClockId::SDHC0.spec_index() as u64)))
                &&& final(self).spec_pchctrl() == old(self).spec_pchctrl().update(
                    ClockId::SDHC0.spec_index() as int,
                    PchCtrl { gen: generator.spec_gclk().spec_bits(), chen: true },
                )
            },
            final(self).spec_gclks() == old(self).spec_gclks(),
            final(self).spec_genctrl() == old(self).spec_genctrl(),
            final(self).spec_sync_lag() == old(self).spec_sync_lag(),
    {
        match self.claim_pclk(ClockId::SDHC0, generator) {
            Some(freq) => Some(Sdhc0Clock { freq }),
            None => None,
        }
    }

    /// Configure the clock for the peripheral(s) that match the name of
    /// this method to use the given clock generator, claiming the
    /// peripheral clock channel. Returns the typed token that proves the
    /// clock is configured, or `None` if the channel has already been
    /// claimed.
    pub fn sdhc1(&mut self, generator: &GClock) -> (r: Option<Sdhc1Clock>)
        requires
            old(self).wf(),
        ensures
            final(self).wf(),
            r is Some <==> old(self).spec_pclk_free(ClockId::SDHC1),
            !old(self).spec_pclk_free(ClockId::SDHC1) ==> *final(self) == *old(self),
            old(self).spec_pclk_free(ClockId::SDHC1) ==> {
                &&& (r matches Some(t) && t.spec_freq() == old(self).spec_gclks()[generator.spec_gclk().spec_bits() as int])
                &&& final(self).spec_used_clocks() == (old(self).spec_used_clocks() | (1u64 << (
                ClockId::SDHC1.spec_index() as u64)))
                &&& final(self).spec_pchctrl() == old(self).spec_pchctrl().update(
                    ClockId::SDHC1.spec_index() as int,
                    PchCtrl { gen: generator.spec_gclk().spec_bits(), chen: true },
                )
            },
            final(self).spec_gclks() == old(self).spec_gclks(),
            final(self).spec_genctrl() == old(self).spec_genctrl(),
            final(self).spec_sync_lag() == old(self).spec_sync_lag(),
    {
        match self.claim_pclk(ClockId::SDHC1, generator) {
            Some(freq) => Some(Sdhc1Clock { freq }),
            None => None,
        }
    }

    /// Configure the clock for the peripheral(s) that match the name of
    /// this method to use the given clock generator, claiming the
    /// peripheral clock channel. Returns the typed token that proves the
    /// clock is configured, or `None` if the channel has already been
    /// claimed.
    pub fn cm4_trace(&mut self, generator: &GClock) -> (r: Option<Cm4TraceClock>)
        requires
            old(self).wf(),
        ensures
            final(self).wf(),
            r is Some <==> old(self).spec_pclk_free(ClockId::CM4_TRACE),
            !old(self).spec_pclk_free(ClockId::CM4_TRACE) ==> *final(self) == *old(self),
            old(self).spec_pclk_free(ClockId::CM4_TRACE) ==> {
                &&& (r matches Some(t) && t.spec_freq() == old(self).spec_gclks()[generator.spec_gclk().spec_bits() as int])
                &&& final(self).spec_used_clocks() == (old(self).spec_used_clocks() | (1u64 << (
                ClockId::CM4_TRACE.spec_index() as u64)))
                &&& final(self).spec_pchctrl() == old(self).spec_pchctrl().update(
                    ClockId::CM4_TRACE.spec_index() as int,
                    PchCtrl { gen: generator.spec_gclk().spec_bits(), chen: true },
                )
            },
            final(self).spec_gclks() == old(self).spec_gclks(),
            final(self).spec_genctrl() == old(self).spec_genctrl(),
            final(self).spec_sync_lag() == old(self).spec_sync_lag(),
    {
        match self.claim_pclk(ClockId::CM4_TRACE, generator) {
            Some(freq) => Some(Cm4TraceClock { freq }),
            None => None,
        }
    }

}

} // verus!
