//! Digital-to-analogue conversion.
//!
//! The controller hosts two converter units. [`Dac::init`] takes the raw
//! peripheral, routes a clock to it and configures both units; enabling
//! the controller makes the units start up, and each unit then converts
//! twelve-bit samples one at a time, waiting for the value to
//! synchronize and the conversion to complete.

use vstd::prelude::*;

use crate::clock::ClockGenId;
use crate::clock::ClockId;
use crate::clock::ClockSource;
use crate::clock::GenericClockController;
use crate::clock::OSC48M_FREQ;
use crate::periph::MCLK;
use crate::port::SyncFlag;
use crate::time::Hertz;
use core::marker::PhantomData;

verus! {

/// Reference selection: the analogue supply voltage.
pub const REFSEL_VDDANA: u8 = 1;

/// Refresh period selection: refresh every thirty microseconds.
pub const REFRESH_1: u8 = 1;

/// Output buffer current control for conversion rates up to 100 kHz.
pub const CCTRL_CC100K: u8 = 0;

/// No oversampling: one sample per conversion.
pub const OSR_1: u8 = 0;

/// The register state of one converter unit.
#[derive(Clone, Copy, PartialEq, Eq, Structural, Debug)]
pub struct DacUnitRegs {
    /// Unit enable.
    pub enable: bool,
    /// Left-adjusted data format.
    pub leftadj: bool,
    /// Keep running in standby.
    pub runstdby: bool,
    /// Dithering mode.
    pub dither: bool,
    /// Refresh period selection.
    pub refresh: u8,
    /// Output buffer current control.
    pub cctrl: u8,
    /// External filter enabled.
    pub fext: bool,
    /// Oversampling ratio selection.
    pub osr: u8,
    /// The data register.
    pub data: u16,
    /// Synchronization of the latest data write.
    pub data_sync: SyncFlag,
    /// Startup-ready indication; settles once the unit can convert.
    pub ready: SyncFlag,
    /// End-of-conversion indication for the latest data value.
    pub eoc: SyncFlag,
}

impl DacUnitRegs {
    /// Unit state at power-up.
    pub open spec fn spec_startup() -> DacUnitRegs {
        DacUnitRegs {
            enable: false,
            leftadj: false,
            runstdby: false,
            dither: false,
            refresh: 0,
            cctrl: 0,
            fext: false,
            osr: 0,
            data: 0,
            data_sync: SyncFlag::spec_new(false),
            ready: SyncFlag::spec_new(false),
            eoc: SyncFlag::spec_new(false),
        }
    }

    pub fn startup() -> (r: DacUnitRegs)
        ensures
            r == Self::spec_startup(),
    {
        DacUnitRegs {
            enable: false,
            leftadj: false,
            runstdby: false,
            dither: false,
            refresh: 0,
            cctrl: 0,
            fext: false,
            osr: 0,
            data: 0,
            data_sync: SyncFlag::new(false),
            ready: SyncFlag::new(false),
            eoc: SyncFlag::new(false),
        }
    }

    /// Unit state after configuration: enabled, right-adjusted,
    /// single-sampled, with the default refresh and current control.
    pub open spec fn spec_configured(self) -> DacUnitRegs {
        DacUnitRegs {
            enable: true,
            leftadj: false,
            runstdby: false,
            dither: false,
            refresh: REFRESH_1,
            cctrl: CCTRL_CC100K,
            fext: false,
            osr: OSR_1,
            ..self
        }
    }

    /// Unit state after a sample has been converted: the data register
    /// holds the sample, its write has synchronized, and the conversion
    /// has completed.
    pub open spec fn spec_converted(self, data: u16, lag: u8) -> DacUnitRegs {
        DacUnitRegs {
            data,
            data_sync: self.data_sync.spec_pulse(lag).spec_wait(false),
            ready: self.ready.spec_wait(true),
            eoc: self.eoc.spec_write(true, lag).spec_wait(true),
            ..self
        }
    }
}

/// The register block of the converter controller, modelled as plain
/// data plus settling bits (see [`crate::port`]).
#[derive(Clone, Copy, PartialEq, Eq, Structural, Debug)]
pub struct DacRegisters {
    /// Software-reset bit; reads as set while the reset is in progress.
    pub swrst: SyncFlag,
    /// Controller enable; its write settles across clock domains.
    pub enable: SyncFlag,
    /// Differential mode.
    pub diff: bool,
    /// Reference selection.
    pub refsel: u8,
    /// Interrupt enables: overrun, result-ready, empty and underrun for
    /// each unit.
    pub ie_overrun0: bool,
    pub ie_overrun1: bool,
    pub ie_resrdy0: bool,
    pub ie_resrdy1: bool,
    pub ie_empty0: bool,
    pub ie_empty1: bool,
    pub ie_underrun0: bool,
    pub ie_underrun1: bool,
    /// The first converter unit.
    pub unit0: DacUnitRegs,
    /// The second converter unit.
    pub unit1: DacUnitRegs,
    /// Settling delay this block exhibits.
    pub sync_lag: u8,
}

impl DacRegisters {
    /// Register contents at power-up, with the given settling delay.
    pub open spec fn spec_startup(sync_lag: u8) -> DacRegisters {
        DacRegisters {
            swrst: SyncFlag::spec_new(false),
            enable: SyncFlag::spec_new(false),
            diff: false,
            refsel: 0,
            ie_overrun0: false,
            ie_overrun1: false,
            ie_resrdy0: false,
            ie_resrdy1: false,
            ie_empty0: false,
            ie_empty1: false,
            ie_underrun0: false,
            ie_underrun1: false,
            unit0: DacUnitRegs::spec_startup(),
            unit1: DacUnitRegs::spec_startup(),
            sync_lag,
        }
    }

    pub fn startup(sync_lag: u8) -> (r: DacRegisters)
        ensures
            r == Self::spec_startup(sync_lag),
    {
        DacRegisters {
            swrst: SyncFlag::new(false),
            enable: SyncFlag::new(false),
            diff: false,
            refsel: 0,
            ie_overrun0: false,
            ie_overrun1: false,
            ie_resrdy0: false,
            ie_resrdy1: false,
            ie_empty0: false,
            ie_empty1: false,
            ie_underrun0: false,
            ie_underrun1: false,
            unit0: DacUnitRegs::startup(),
            unit1: DacUnitRegs::startup(),
            sync_lag,
        }
    }
}

/// The raw converter controller peripheral.
pub struct DAC {
    /// Its register block.
    pub regs: DacRegisters,
}

impl DAC {
    /// Take the peripheral at power-up, with the given settling delay.
    pub fn new(sync_lag: u8) -> (r: DAC)
        ensures
            r.regs == DacRegisters::spec_startup(sync_lag),
    {
        DAC { regs: DacRegisters::startup(sync_lag) }
    }
}

/// Selects one of the two converter units at the type level.
pub trait DacInstance {
    /// The unit's index.
    spec fn spec_index() -> usize;

    /// The unit's index.
    fn index() -> (r: usize)
        ensures
            r == Self::spec_index(),
            r < 2,
    ;
}

/// The first converter unit.
pub struct Dac0;

impl DacInstance for Dac0 {
    closed spec fn spec_index() -> usize {
        0
    }

    fn index() -> (r: usize) {
        0
    }
}

/// The second converter unit.
pub struct Dac1;

impl DacInstance for Dac1 {
    closed spec fn spec_index() -> usize {
        1
    }

    fn index() -> (r: usize) {
        1
    }
}

/// The converter controller, configured and owning its register block.
pub struct Dac(DacRegisters);

/// A handle to one configured converter unit.
pub struct DacUnit<I: DacInstance> {
    _marker: PhantomData<I>,
}

impl<I: DacInstance> DacUnit<I> {
    /// Configure this unit for single, right-adjusted conversions with
    /// the default refresh period and output current.
    fn init(dac: &mut DacRegisters) -> (r: DacUnit<I>)
        ensures
            I::spec_index() == 0 ==> *final(dac) == (DacRegisters {
                unit0: old(dac).unit0.spec_configured(),
                ..*old(dac)
            }),
            I::spec_index() == 1 ==> *final(dac) == (DacRegisters {
                unit1: old(dac).unit1.spec_configured(),
                ..*old(dac)
            }),
    {
        if I::index() == 0 {
            dac.unit0.enable = true;
            dac.unit0.leftadj = false;
            dac.unit0.runstdby = false;
            dac.unit0.dither = false;
            dac.unit0.refresh = REFRESH_1;
            dac.unit0.cctrl = CCTRL_CC100K;
            dac.unit0.fext = false;
            dac.unit0.osr = OSR_1;
        } else {
            dac.unit1.enable = true;
            dac.unit1.leftadj = false;
            dac.unit1.runstdby = false;
            dac.unit1.dither = false;
            dac.unit1.refresh = REFRESH_1;
            dac.unit1.cctrl = CCTRL_CC100K;
            dac.unit1.fext = false;
            dac.unit1.osr = OSR_1;
        }
        DacUnit { _marker: PhantomData }
    }

    /// Wait for the unit to report startup-ready: conversions started
    /// before that would be discarded. Callable once the controller has
    /// been enabled, which makes the units settle towards ready.
    pub fn wait_ready(self, dac: &mut Dac) -> (r: DacUnit<I>)
        requires
            I::spec_index() == 0 ==> old(dac).spec_regs().unit0.ready.target,
            I::spec_index() == 1 ==> old(dac).spec_regs().unit1.ready.target,
        ensures
            I::spec_index() == 0 ==> final(dac).spec_regs() == (DacRegisters {
                unit0: DacUnitRegs {
                    ready: old(dac).spec_regs().unit0.ready.spec_wait(true),
                    ..old(dac).spec_regs().unit0
                },
                ..old(dac).spec_regs()
            }),
            I::spec_index() == 1 ==> final(dac).spec_regs() == (DacRegisters {
                unit1: DacUnitRegs {
                    ready: old(dac).spec_regs().unit1.ready.spec_wait(true),
                    ..old(dac).spec_regs().unit1
                },
                ..old(dac).spec_regs()
            }),
    {
        if I::index() == 0 {
            dac.0.unit0.ready.wait_until(true);
        } else {
            dac.0.unit1.ready.wait_until(true);
        }
        self
    }

    /// Convert one twelve-bit sample: wait for the unit to be ready,
    /// load the data register, wait for the value to synchronize and for
    /// the conversion to complete. The sample must be within the
    /// twelve-bit range.
    pub fn start_conversion(self, dac: &mut Dac, data: u16) -> (r: DacUnit<I>)
        requires
            data < 4096,
            I::spec_index() == 0 ==> old(dac).spec_regs().unit0.ready.target,
            I::spec_index() == 1 ==> old(dac).spec_regs().unit1.ready.target,
        ensures
            I::spec_index() == 0 ==> final(dac).spec_regs() == (DacRegisters {
                unit0: old(dac).spec_regs().unit0.spec_converted(
                    data,
                    old(dac).spec_regs().sync_lag,
                ),
                ..old(dac).spec_regs()
            }),
            I::spec_index() == 1 ==> final(dac).spec_regs() == (DacRegisters {
                unit1: old(dac).spec_regs().unit1.spec_converted(
                    data,
                    old(dac).spec_regs().sync_lag,
                ),
                ..old(dac).spec_regs()
            }),
    {
        let this = self.wait_ready(dac);

        let lag = dac.0.sync_lag;
        if I::index() == 0 {
            dac.0.unit0.data = data;
            dac.0.unit0.data_sync.pulse(lag);
            // Wait for the sync of the new value loaded in the data
            // register, then for the end of the conversion.
            dac.0.unit0.data_sync.wait_until(false);
            dac.0.unit0.eoc.write(true, lag);
            dac.0.unit0.eoc.wait_until(true);
        } else {
            dac.0.unit1.data = data;
            dac.0.unit1.data_sync.pulse(lag);
            dac.0.unit1.data_sync.wait_until(false);
            dac.0.unit1.eoc.write(true, lag);
            dac.0.unit1.eoc.wait_until(true);
        }

        this
    }
}

impl Dac {
    /// The controller's register block, as seen by specifications.
    pub closed spec fn spec_regs(&self) -> DacRegisters {
        self.0
    }

    /// Bring up the converter controller: gate its bus clock, configure
    /// and claim its peripheral clock from the 48 MHz source, reset the
    /// controller, select single-ended conversion against the analogue
    /// supply, and configure both units.
    ///
    /// Generator 11 and the controller's clock channel must still be
    /// unclaimed.
    pub fn init(mclk: &mut MCLK, dac: DAC, clocks: &mut GenericClockController) -> (r: (
        Dac,
        DacUnit<Dac0>,
        DacUnit<Dac1>,
    ))
        requires
            old(clocks).wf(),
            old(clocks).spec_gclks()[ClockGenId::GCLK11.spec_bits() as int].0 == 0,
            old(clocks).spec_pclk_free(ClockId::DAC),
        ensures
            *final(mclk) == (MCLK { apbd_dac: true, ..*old(mclk) }),
            final(clocks).wf(),
            final(clocks).spec_gclks() == old(clocks).spec_gclks().update(
                ClockGenId::GCLK11.spec_bits() as int,
                Hertz(OSC48M_FREQ),
            ),
            final(clocks).spec_used_clocks() == (old(clocks).spec_used_clocks() | (1u64 << (
            ClockId::DAC.spec_index() as u64))),
            r.0.spec_regs() == (DacRegisters {
                diff: false,
                refsel: REFSEL_VDDANA,
                unit0: DacUnitRegs {
                    data_sync: dac.regs.unit0.data_sync,
                    ready: dac.regs.unit0.ready,
                    eoc: dac.regs.unit0.eoc,
                    ..DacUnitRegs::spec_startup().spec_configured()
                },
                unit1: DacUnitRegs {
                    data_sync: dac.regs.unit1.data_sync,
                    ready: dac.regs.unit1.ready,
                    eoc: dac.regs.unit1.eoc,
                    ..DacUnitRegs::spec_startup().spec_configured()
                },
                swrst: dac.regs.swrst.spec_pulse(dac.regs.sync_lag).spec_wait(false),
                enable: SyncFlag {
                    observed: false,
                    target: false,
                    lag: 0,
                    reads: dac.regs.enable.reads,
                    writes: dac.regs.enable.writes,
                },
                ..DacRegisters::spec_startup(dac.regs.sync_lag)
            }),
    {
        // Enable the controller's bus clock
        mclk.apbd_dac = true;

        // Route a 48 MHz clock to the controller
        let configured = clocks.configure_gclk_divider_and_source(
            ClockGenId::GCLK11,
            1,
            ClockSource::DFLL,
            false,
        );
        let dac_clock = match configured {
            Some(g) => g,
            None => unreached(),
        };
        let claimed = clocks.dac(&dac_clock);
        match claimed {
            Some(_) => (),
            None => unreached(),
        };

        // Reset just in case, preserving the capture counters
        let mut regs = dac.regs;
        let lag = regs.sync_lag;
        let mut swrst = regs.swrst;
        swrst.pulse(lag);
        swrst.wait_until(false);
        let mut fresh = DacRegisters::startup(lag);
        fresh.swrst = swrst;
        fresh.enable = SyncFlag {
            observed: false,
            target: false,
            lag: 0,
            reads: regs.enable.reads,
            writes: regs.enable.writes,
        };
        fresh.unit0.data_sync = regs.unit0.data_sync;
        fresh.unit0.ready = regs.unit0.ready;
        fresh.unit0.eoc = regs.unit0.eoc;
        fresh.unit1.data_sync = regs.unit1.data_sync;
        fresh.unit1.ready = regs.unit1.ready;
        fresh.unit1.eoc = regs.unit1.eoc;
        regs = fresh;

        // Single-ended conversion against the analogue supply
        regs.diff = false;
        regs.refsel = REFSEL_VDDANA;

        let dac0: DacUnit<Dac0> = DacUnit::init(&mut regs);
        let dac1: DacUnit<Dac1> = DacUnit::init(&mut regs);
        (Dac(regs), dac0, dac1)
    }

    /// The data register of the given unit.
    pub fn unit_data(&self, index: usize) -> (r: u16)
        requires
            index < 2,
        ensures
            index == 0 ==> r == self.spec_regs().unit0.data,
            index == 1 ==> r == self.spec_regs().unit1.data,
    {
        if index == 0 {
            self.0.unit0.data
        } else {
            self.0.unit1.data
        }
    }

    /// Whether the controller is enabled (its settled value).
    pub fn is_enabled(&self) -> (r: bool)
        ensures
            r == self.spec_regs().enable.value(),
    {
        self.0.enable.target
    }

    /// Enable the converter controller, which includes both units, wait
    /// for the enable to synchronize, and let the units start settling
    /// towards ready.
    pub fn enable_dac_controller(self) -> (r: Dac)
        ensures
            r.spec_regs() == (DacRegisters {
                enable: self.spec_regs().enable.spec_write(
                    true,
                    self.spec_regs().sync_lag,
                ).spec_wait(true),
                unit0: DacUnitRegs {
                    ready: self.spec_regs().unit0.ready.spec_write(
                        true,
                        self.spec_regs().sync_lag,
                    ),
                    ..self.spec_regs().unit0
                },
                unit1: DacUnitRegs {
                    ready: self.spec_regs().unit1.ready.spec_write(
                        true,
                        self.spec_regs().sync_lag,
                    ),
                    ..self.spec_regs().unit1
                },
                ..self.spec_regs()
            }),
    {
        let Dac(mut regs) = self;
        let lag = regs.sync_lag;
        regs.enable.write(true, lag);
        regs.enable.wait_until(true);
        // Once enabled, each unit requires a startup time before its
        // first conversion; the ready bits settle towards set.
        regs.unit0.ready.write(true, lag);
        regs.unit1.ready.write(true, lag);
        Dac(regs)
    }

    /// Enable every modelled interrupt of the controller at the
    /// peripheral level. Routing and unmasking the interrupt lines in
    /// the interrupt controller is the embedding's duty.
    pub fn enable_dac_interrupts(self) -> (r: Dac)
        ensures
            r.spec_regs() == (DacRegisters {
                ie_overrun0: true,
                ie_overrun1: true,
                ie_resrdy0: true,
                ie_resrdy1: true,
                ie_empty0: true,
                ie_empty1: true,
                ie_underrun0: true,
                ie_underrun1: true,
                ..self.spec_regs()
            }),
    {
        let Dac(mut regs) = self;
        regs.ie_overrun0 = true;
        regs.ie_overrun1 = true;
        regs.ie_resrdy0 = true;
        regs.ie_resrdy1 = true;
        regs.ie_empty0 = true;
        regs.ie_empty1 = true;
        regs.ie_underrun0 = true;
        regs.ie_underrun1 = true;
        Dac(regs)
    }
}

} // verus!
