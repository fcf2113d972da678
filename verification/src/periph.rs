//! Register-block models for the system-level peripherals that the clock
//! tree touches: the generic clock controller block, the main clock, the
//! oscillator controllers and the flash controller.
//!
//! Each block is plain data plus [`crate::port::SyncFlag`] bits for the
//! state that settles with a delay. A `new` constructor yields the
//! power-on reset state; `sync_lag` parameters say how many stale reads
//! the hardware produces before a write is seen to take effect.

use vstd::prelude::*;

use crate::port::SyncFlag;

verus! {

/// One generic clock generator's control register.
#[derive(Clone, Copy, PartialEq, Eq, Structural, Debug)]
pub struct GenCtrl {
    /// Clock source selection.
    pub src: u8,
    /// Linear division factor applied to the source.
    pub div: u16,
    /// Exponential divider selection (unused by this driver, kept clear).
    pub divsel: bool,
    /// Improve duty cycle for odd division factors.
    pub idc: bool,
    /// Generator enable.
    pub genen: bool,
    /// Output enable.
    pub oe: bool,
    /// Keep running in standby.
    pub runstdby: bool,
}

impl GenCtrl {
    /// Reset value: everything clear.
    pub open spec fn spec_zero() -> GenCtrl {
        GenCtrl {
            src: 0,
            div: 0,
            divsel: false,
            idc: false,
            genen: false,
            oe: false,
            runstdby: false,
        }
    }

    pub fn zero() -> (r: GenCtrl)
        ensures
            r == Self::spec_zero(),
    {
        GenCtrl {
            src: 0,
            div: 0,
            divsel: false,
            idc: false,
            genen: false,
            oe: false,
            runstdby: false,
        }
    }
}

/// One peripheral clock channel's control register.
#[derive(Clone, Copy, PartialEq, Eq, Structural, Debug)]
pub struct PchCtrl {
    /// Generator feeding this peripheral channel.
    pub gen: u8,
    /// Channel enable.
    pub chen: bool,
}

impl PchCtrl {
    /// Reset value: disabled, generator zero.
    pub open spec fn spec_zero() -> PchCtrl {
        PchCtrl { gen: 0, chen: false }
    }

    pub fn zero() -> (r: PchCtrl)
        ensures
            r == Self::spec_zero(),
    {
        PchCtrl { gen: 0, chen: false }
    }
}

/// Number of clock generators in the block.
pub const GEN_COUNT: usize = 12;

/// Number of peripheral clock channels in the block.
pub const PCH_COUNT: usize = 48;

/// The generic clock controller block: twelve generators, forty-eight
/// peripheral channels, a software-reset bit and a synchronization-busy
/// bit that covers register writes still propagating across clock
/// domains.
pub struct GCLK {
    /// Generator control registers.
    pub genctrl: Vec<GenCtrl>,
    /// Peripheral channel control registers.
    pub pchctrl: Vec<PchCtrl>,
    /// Software-reset bit; reads as set while the reset is in progress.
    pub swrst: SyncFlag,
    /// Synchronization-busy indication for the latest write.
    pub syncbusy: SyncFlag,
    /// Settling delay this block exhibits.
    pub sync_lag: u8,
}

impl GCLK {
    /// Well-formedness: the register arrays have their hardware sizes.
    pub open spec fn wf(&self) -> bool {
        self.genctrl.len() == GEN_COUNT && self.pchctrl.len() == PCH_COUNT
    }

    /// The reset contents of the generator array.
    pub open spec fn spec_zero_gens() -> Seq<GenCtrl> {
        Seq::new(GEN_COUNT as nat, |i: int| GenCtrl::spec_zero())
    }

    /// The reset contents of the peripheral channel array.
    pub open spec fn spec_zero_pchs() -> Seq<PchCtrl> {
        Seq::new(PCH_COUNT as nat, |i: int| PchCtrl::spec_zero())
    }

    /// Take the block at power-on reset, with the given settling delay.
    pub fn new(sync_lag: u8) -> (r: GCLK)
        ensures
            r.wf(),
            r.genctrl@ == Self::spec_zero_gens(),
            r.pchctrl@ == Self::spec_zero_pchs(),
            r.swrst == SyncFlag::spec_new(false),
            r.syncbusy == SyncFlag::spec_new(false),
            r.sync_lag == sync_lag,
    {
        let mut genctrl: Vec<GenCtrl> = Vec::new();
        let mut pchctrl: Vec<PchCtrl> = Vec::new();
        for i in 0..GEN_COUNT
            invariant
                genctrl@ =~= Self::spec_zero_gens().take(i as int),
        {
            genctrl.push(GenCtrl::zero());
            proof {
                assert(genctrl@ =~= Self::spec_zero_gens().take(i + 1));
            }
        }
        for i in 0..PCH_COUNT
            invariant
                pchctrl@ =~= Self::spec_zero_pchs().take(i as int),
        {
            pchctrl.push(PchCtrl::zero());
            proof {
                assert(pchctrl@ =~= Self::spec_zero_pchs().take(i + 1));
            }
        }
        proof {
            assert(genctrl@ =~= Self::spec_zero_gens());
            assert(pchctrl@ =~= Self::spec_zero_pchs());
        }
        GCLK {
            genctrl,
            pchctrl,
            swrst: SyncFlag::new(false),
            syncbusy: SyncFlag::new(false),
            sync_lag,
        }
    }

    /// Software-reset the whole block and spin until the hardware confirms
    /// it: every register returns to its reset value, and both the reset
    /// bit and the synchronization indication settle.
    pub fn software_reset(&mut self)
        ensures
            final(self).wf(),
            final(self).genctrl@ == Self::spec_zero_gens(),
            final(self).pchctrl@ == Self::spec_zero_pchs(),
            final(self).swrst == old(self).swrst.spec_pulse(old(self).sync_lag).spec_wait(false),
            final(self).syncbusy == old(self).syncbusy.spec_pulse(old(self).sync_lag).spec_wait(
                false,
            ),
            final(self).sync_lag == old(self).sync_lag,
    {
        let lag = self.sync_lag;
        let fresh = GCLK::new(lag);
        self.genctrl = fresh.genctrl;
        self.pchctrl = fresh.pchctrl;
        self.swrst.pulse(lag);
        self.swrst.wait_until(false);
        self.syncbusy.pulse(lag);
        self.syncbusy.wait_until(false);
    }

    /// Write one generator's control register; the write synchronizes
    /// across clock domains, so the busy indication is raised for the
    /// block's settling delay.
    pub fn write_genctrl(&mut self, i: usize, val: GenCtrl)
        requires
            old(self).wf(),
            i < GEN_COUNT,
        ensures
            final(self).wf(),
            final(self).genctrl@ == old(self).genctrl@.update(i as int, val),
            final(self).pchctrl == old(self).pchctrl,
            final(self).swrst == old(self).swrst,
            final(self).syncbusy == old(self).syncbusy.spec_pulse(old(self).sync_lag),
            final(self).sync_lag == old(self).sync_lag,
    {
        let lag = self.sync_lag;
        self.genctrl[i] = val;
        self.syncbusy.pulse(lag);
    }

    /// Write one peripheral channel's control register; the write
    /// synchronizes across clock domains like a generator write.
    pub fn write_pchctrl(&mut self, i: usize, val: PchCtrl)
        requires
            old(self).wf(),
            i < PCH_COUNT,
        ensures
            final(self).wf(),
            final(self).pchctrl@ == old(self).pchctrl@.update(i as int, val),
            final(self).genctrl == old(self).genctrl,
            final(self).swrst == old(self).swrst,
            final(self).syncbusy == old(self).syncbusy.spec_pulse(old(self).sync_lag),
            final(self).sync_lag == old(self).sync_lag,
    {
        let lag = self.sync_lag;
        self.pchctrl[i] = val;
        self.syncbusy.pulse(lag);
    }
}

/// The main clock block: bridge masks gating each peripheral's bus clock,
/// and the CPU divider.
#[derive(Clone, Copy, PartialEq, Eq, Structural, Debug)]
pub struct MCLK {
    /// Bridge A mask: generic clock controller bus clock.
    pub apba_gclk: bool,
    /// Bridge B mask: timer-counter 2 bus clock.
    pub apbb_tc2: bool,
    /// Bridge B mask: timer-counter 3 bus clock.
    pub apbb_tc3: bool,
    /// Bridge C mask: timer-counter 4 bus clock.
    pub apbc_tc4: bool,
    /// Bridge C mask: timer-counter 5 bus clock.
    pub apbc_tc5: bool,
    /// Bridge D mask: digital-to-analog converter bus clock.
    pub apbd_dac: bool,
    /// Bridge D mask: analog-to-digital converter 0 bus clock.
    pub apbd_adc0: bool,
    /// Bridge D mask: analog-to-digital converter 1 bus clock.
    pub apbd_adc1: bool,
    /// CPU clock division factor.
    pub cpudiv: u8,
}

impl MCLK {
    /// Power-on reset state: all modelled masks clear, CPU divider one.
    pub open spec fn spec_new() -> MCLK {
        MCLK {
            apba_gclk: false,
            apbb_tc2: false,
            apbb_tc3: false,
            apbc_tc4: false,
            apbc_tc5: false,
            apbd_dac: false,
            apbd_adc0: false,
            apbd_adc1: false,
            cpudiv: 1,
        }
    }

    pub fn new() -> (r: MCLK)
        ensures
            r == Self::spec_new(),
    {
        MCLK {
            apba_gclk: false,
            apbb_tc2: false,
            apbb_tc3: false,
            apbc_tc4: false,
            apbc_tc5: false,
            apbd_dac: false,
            apbd_adc0: false,
            apbd_adc1: false,
            cpudiv: 1,
        }
    }
}

/// The 32 kHz oscillators controller block.
#[derive(Clone, Copy, PartialEq, Eq, Structural, Debug)]
pub struct OSC32KCTRL {
    /// Ultra-low-power internal oscillator: 32 kHz output enable.
    pub ulp_en32k: bool,
    /// Ultra-low-power internal oscillator: 1 kHz output enable.
    pub ulp_en1k: bool,
    /// External crystal oscillator: run on demand only.
    pub xosc_ondemand: bool,
    /// External crystal oscillator: 32 kHz output enable.
    pub xosc_en32k: bool,
    /// External crystal oscillator: 1 kHz output enable.
    pub xosc_en1k: bool,
    /// External crystal oscillator: crystal connected between the pins.
    pub xosc_xtalen: bool,
    /// External crystal oscillator enable.
    pub xosc_enable: bool,
    /// External crystal oscillator: control-gain mode set for a crystal.
    pub xosc_cgm_xt: bool,
    /// External crystal oscillator: keep running in standby.
    pub xosc_runstdby: bool,
    /// Real-time clock source selection.
    pub rtcsel: u8,
    /// External crystal ready bit; settles once the crystal stabilizes.
    pub xosc32krdy: SyncFlag,
    /// Settling delay this block exhibits.
    pub sync_lag: u8,
}

/// Real-time clock fed from the internal 1 kHz output.
pub const RTCSEL_ULP1K: u8 = 1;

/// Real-time clock fed from the external crystal's 1 kHz output.
pub const RTCSEL_XOSC1K: u8 = 4;

impl OSC32KCTRL {
    /// Take the block at power-on reset, with the given settling delay.
    pub fn new(sync_lag: u8) -> (r: OSC32KCTRL)
        ensures
            r == (OSC32KCTRL {
                ulp_en32k: false,
                ulp_en1k: false,
                xosc_ondemand: true,
                xosc_en32k: false,
                xosc_en1k: false,
                xosc_xtalen: false,
                xosc_enable: false,
                xosc_cgm_xt: false,
                xosc_runstdby: false,
                rtcsel: 0,
                xosc32krdy: SyncFlag::spec_new(false),
                sync_lag,
            }),
    {
        OSC32KCTRL {
            ulp_en32k: false,
            ulp_en1k: false,
            xosc_ondemand: true,
            xosc_en32k: false,
            xosc_en1k: false,
            xosc_xtalen: false,
            xosc_enable: false,
            xosc_cgm_xt: false,
            xosc_runstdby: false,
            rtcsel: 0,
            xosc32krdy: SyncFlag::new(false),
            sync_lag,
        }
    }
}

/// The digital phase-locked loop used to multiply the 2 MHz reference up
/// to the 120 MHz core clock.
#[derive(Clone, Copy, PartialEq, Eq, Structural, Debug)]
pub struct Dpll {
    /// Loop divider ratio, integer part.
    pub ldr: u16,
    /// Loop divider ratio, fractional part.
    pub ldrfrac: u8,
    /// Reference clock selection.
    pub refclk: u8,
    /// Loop enable.
    pub enable: bool,
    /// Run on demand only.
    pub ondemand: bool,
    /// Lock indication; settles once the loop locks.
    pub lock: SyncFlag,
    /// Clock-ready indication; settles after lock.
    pub clkrdy: SyncFlag,
}

/// Reference clock selection: a dedicated generic clock channel.
pub const DPLL_REFCLK_GCLK: u8 = 0;

/// The oscillators controller block (the part of it this driver uses:
/// the first digital phase-locked loop).
#[derive(Clone, Copy, PartialEq, Eq, Structural, Debug)]
pub struct OSCCTRL {
    /// The first digital phase-locked loop.
    pub dpll0: Dpll,
    /// Settling delay this block exhibits.
    pub sync_lag: u8,
}

impl OSCCTRL {
    /// Take the block at power-on reset, with the given settling delay.
    pub fn new(sync_lag: u8) -> (r: OSCCTRL)
        ensures
            r == (OSCCTRL {
                dpll0: Dpll {
                    ldr: 0,
                    ldrfrac: 0,
                    refclk: 0,
                    enable: false,
                    ondemand: true,
                    lock: SyncFlag::spec_new(false),
                    clkrdy: SyncFlag::spec_new(false),
                },
                sync_lag,
            }),
    {
        OSCCTRL {
            dpll0: Dpll {
                ldr: 0,
                ldrfrac: 0,
                refclk: 0,
                enable: false,
                ondemand: true,
                lock: SyncFlag::new(false),
                clkrdy: SyncFlag::new(false),
            },
            sync_lag,
        }
    }
}

/// The flash controller block (the part of it the clock setup touches:
/// the read wait states).
#[derive(Clone, Copy, PartialEq, Eq, Structural, Debug)]
pub struct NVMCTRL {
    /// Flash read wait states.
    pub rws: u8,
}

impl NVMCTRL {
    /// Power-on reset state.
    pub fn new() -> (r: NVMCTRL)
        ensures
            r == (NVMCTRL { rws: 0 }),
    {
        NVMCTRL { rws: 0 }
    }
}

} // verus!
