//! Analogue-to-digital conversion.
//!
//! An [`Adc`] drives one of the two converter peripherals; the marker
//! type selects which. Conversions run either synchronously ([`Adc::read`])
//! or interrupt-driven through [`InterruptAdc`], whose [`ConversionMode`]
//! decides how the peripheral is finalized when a conversion completes.

use vstd::prelude::*;

use crate::clock::ClockGenId;
use crate::clock::ClockId;
use crate::clock::ClockSource;
use crate::clock::GenericClockController;
use crate::clock::OSC48M_FREQ;
use crate::periph::MCLK;
use crate::port::SyncFlag;
use crate::time::Hertz;
use core::marker::PhantomData;

verus! {

/// Samples per reading.
#[allow(non_camel_case_types)]
#[derive(Clone, Copy, PartialEq, Eq, Structural, Debug)]
pub enum SampleRate {
    _1,
    _2,
    _4,
    _8,
    _16,
    _32,
    _64,
    _128,
    _256,
    _512,
    _1024,
}

impl SampleRate {
    /// Encoding of the accumulation count in the averaging register.
    pub open spec fn spec_bits(self) -> u8 {
        match self {
            SampleRate::_1 => 0,
            SampleRate::_2 => 1,
            SampleRate::_4 => 2,
            SampleRate::_8 => 3,
            SampleRate::_16 => 4,
            SampleRate::_32 => 5,
            SampleRate::_64 => 6,
            SampleRate::_128 => 7,
            SampleRate::_256 => 8,
            SampleRate::_512 => 9,
            SampleRate::_1024 => 10,
        }
    }

    pub fn bits(self) -> (r: u8)
        ensures
            r == self.spec_bits(),
    {
        match self {
            SampleRate::_1 => 0,
            SampleRate::_2 => 1,
            SampleRate::_4 => 2,
            SampleRate::_8 => 3,
            SampleRate::_16 => 4,
            SampleRate::_32 => 5,
            SampleRate::_64 => 6,
            SampleRate::_128 => 7,
            SampleRate::_256 => 8,
            SampleRate::_512 => 9,
            SampleRate::_1024 => 10,
        }
    }

    /// The result-adjustment shift the datasheet prescribes for each
    /// accumulation count.
    pub open spec fn spec_adjres(self) -> u8 {
        match self {
            SampleRate::_1 => 0,
            SampleRate::_2 => 1,
            SampleRate::_4 => 2,
            SampleRate::_8 => 3,
            _ => 4,
        }
    }

    pub fn adjres(self) -> (r: u8)
        ensures
            r == self.spec_adjres(),
    {
        match self {
            SampleRate::_1 => 0,
            SampleRate::_2 => 1,
            SampleRate::_4 => 2,
            SampleRate::_8 => 3,
            _ => 4,
        }
    }
}

/// Clock frequency relative to the system clock.
#[allow(non_camel_case_types)]
#[derive(Clone, Copy, PartialEq, Eq, Structural, Debug)]
pub enum Prescaler {
    DIV2,
    DIV4,
    DIV8,
    DIV16,
    DIV32,
    DIV64,
    DIV128,
    DIV256,
}

impl Prescaler {
    /// Encoding of the division factor in the control register.
    pub open spec fn spec_bits(self) -> u8 {
        match self {
            Prescaler::DIV2 => 0,
            Prescaler::DIV4 => 1,
            Prescaler::DIV8 => 2,
            Prescaler::DIV16 => 3,
            Prescaler::DIV32 => 4,
            Prescaler::DIV64 => 5,
            Prescaler::DIV128 => 6,
            Prescaler::DIV256 => 7,
        }
    }

    pub fn bits(self) -> (r: u8)
        ensures
            r == self.spec_bits(),
    {
        match self {
            Prescaler::DIV2 => 0,
            Prescaler::DIV4 => 1,
            Prescaler::DIV8 => 2,
            Prescaler::DIV16 => 3,
            Prescaler::DIV32 => 4,
            Prescaler::DIV64 => 5,
            Prescaler::DIV128 => 6,
            Prescaler::DIV256 => 7,
        }
    }
}

/// Reading resolution in bits.
#[allow(non_camel_case_types)]
#[derive(Clone, Copy, PartialEq, Eq, Structural, Debug)]
pub enum Resolution {
    _12BIT,
    _16BIT,
    _10BIT,
    _8BIT,
}

impl Resolution {
    /// Encoding of the resolution in the control register.
    pub open spec fn spec_bits(self) -> u8 {
        match self {
            Resolution::_12BIT => 0,
            Resolution::_16BIT => 1,
            Resolution::_10BIT => 2,
            Resolution::_8BIT => 3,
        }
    }

    pub fn bits(self) -> (r: u8)
        ensures
            r == self.spec_bits(),
    {
        match self {
            Resolution::_12BIT => 0,
            Resolution::_16BIT => 1,
            Resolution::_10BIT => 2,
            Resolution::_8BIT => 3,
        }
    }
}

/// Reference voltage (or its source).
#[allow(non_camel_case_types)]
#[derive(Clone, Copy, PartialEq, Eq, Structural, Debug)]
pub enum Reference {
    INTREF,
    INTVCC0,
    INTVCC1,
    AREFA,
    AREFB,
    AREFC,
}

impl Reference {
    /// Encoding of the reference selection in the reference register.
    pub open spec fn spec_bits(self) -> u8 {
        match self {
            Reference::INTREF => 0,
            Reference::INTVCC0 => 2,
            Reference::INTVCC1 => 3,
            Reference::AREFA => 4,
            Reference::AREFB => 5,
            Reference::AREFC => 6,
        }
    }

    pub fn bits(self) -> (r: u8)
        ensures
            r == self.spec_bits(),
    {
        match self {
            Reference::INTREF => 0,
            Reference::INTVCC0 => 2,
            Reference::INTVCC1 => 3,
            Reference::AREFA => 4,
            Reference::AREFB => 5,
            Reference::AREFC => 6,
        }
    }
}

/// Model calibration words, standing in for the factory calibration area
/// the hardware provides.
pub const ADC_BIASCOMP_CAL: u8 = 0;

/// Model calibration word for the bias reference buffer.
pub const ADC_BIASREFBUF_CAL: u8 = 0;

/// Model calibration word for the rail-to-rail bias.
pub const ADC_BIASR2R_CAL: u8 = 0;

/// The register block of one converter, modelled as plain data plus
/// settling bits (see [`crate::port`]).
#[derive(Clone, Copy, PartialEq, Eq, Structural, Debug)]
pub struct AdcRegisters {
    /// Clock prescaler selection.
    pub prescaler: u8,
    /// Resolution selection.
    pub ressel: u8,
    /// Sampling-time length.
    pub samplen: u8,
    /// Negative input tied to internal ground.
    pub muxneg_gnd: bool,
    /// Positive input channel selection.
    pub muxpos: u8,
    /// Bias compensation calibration.
    pub biascomp: u8,
    /// Bias reference buffer calibration.
    pub biasrefbuf: u8,
    /// Rail-to-rail bias calibration.
    pub biasr2r: u8,
    /// Accumulation count selection.
    pub samplenum: u8,
    /// Result-adjustment shift.
    pub adjres: u8,
    /// Reference selection.
    pub refsel: u8,
    /// Converter enable.
    pub enable: bool,
    /// Free-running mode.
    pub freerun: bool,
    /// Result-ready interrupt enable.
    pub ie_resrdy: bool,
    /// Result-ready interrupt flag; settles once a conversion finishes.
    pub if_resrdy: SyncFlag,
    /// The latest conversion result.
    pub result: u16,
    /// Synchronization-busy indication for the latest write.
    pub syncbusy: SyncFlag,
    /// Settling delay this block exhibits.
    pub sync_lag: u8,
}

impl AdcRegisters {
    /// Register contents at power-up, with the given settling delay.
    pub open spec fn spec_startup(sync_lag: u8) -> AdcRegisters {
        AdcRegisters {
            prescaler: 0,
            ressel: 0,
            samplen: 0,
            muxneg_gnd: false,
            muxpos: 0,
            biascomp: 0,
            biasrefbuf: 0,
            biasr2r: 0,
            samplenum: 0,
            adjres: 0,
            refsel: 0,
            enable: false,
            freerun: false,
            ie_resrdy: false,
            if_resrdy: SyncFlag::spec_new(false),
            result: 0,
            syncbusy: SyncFlag::spec_new(false),
            sync_lag,
        }
    }

    pub fn startup(sync_lag: u8) -> (r: AdcRegisters)
        ensures
            r == Self::spec_startup(sync_lag),
    {
        AdcRegisters {
            prescaler: 0,
            ressel: 0,
            samplen: 0,
            muxneg_gnd: false,
            muxpos: 0,
            biascomp: 0,
            biasrefbuf: 0,
            biasr2r: 0,
            samplenum: 0,
            adjres: 0,
            refsel: 0,
            enable: false,
            freerun: false,
            ie_resrdy: false,
            if_resrdy: SyncFlag::new(false),
            result: 0,
            syncbusy: SyncFlag::new(false),
            sync_lag,
        }
    }

    /// The synchronization bit after one more synchronizing write has
    /// been issued and waited out.
    pub open spec fn spec_synced(self) -> SyncFlag {
        self.syncbusy.spec_pulse(self.sync_lag).spec_wait(false)
    }

    /// Issue a synchronizing write: raise the busy indication and spin
    /// until it settles.
    pub fn write_and_sync(&mut self)
        ensures
            *final(self) == (AdcRegisters { syncbusy: old(self).spec_synced(), ..*old(self) }),
    {
        let lag = self.sync_lag;
        self.syncbusy.pulse(lag);
        self.syncbusy.wait_until(false);
    }

    /// Contents after the converter has been powered up: waits for any
    /// pending synchronization, sets the enable bit, and waits again.
    pub open spec fn spec_power_up(self) -> AdcRegisters {
        AdcRegisters {
            enable: true,
            syncbusy: self.syncbusy.spec_wait(false).spec_pulse(self.sync_lag).spec_wait(false),
            ..self
        }
    }

    /// Contents after the converter has been powered down the same way.
    pub open spec fn spec_power_down(self) -> AdcRegisters {
        AdcRegisters {
            enable: false,
            syncbusy: self.syncbusy.spec_wait(false).spec_pulse(self.sync_lag).spec_wait(false),
            ..self
        }
    }

    /// Contents after a conversion has been triggered: the hardware will
    /// raise the result-ready flag once it finishes, which takes the
    /// block's settling delay to become observable.
    pub open spec fn spec_trigger(self) -> AdcRegisters {
        AdcRegisters { if_resrdy: self.if_resrdy.spec_write(true, self.sync_lag), ..self }
    }

    /// Contents after a complete one-shot read of `channel`: the channel
    /// is routed, the converter powered up, a conversion triggered and
    /// waited out, and the converter powered back down.
    pub open spec fn spec_one_shot(self, channel: u8) -> AdcRegisters {
        let muxed = AdcRegisters {
            muxpos: channel,
            syncbusy: self.syncbusy.spec_wait(false),
            ..self
        };
        let triggered = muxed.spec_power_up().spec_trigger();
        let converted = AdcRegisters {
            if_resrdy: triggered.if_resrdy.spec_wait(true),
            ..triggered
        };
        converted.spec_power_down()
    }
}

/// The first converter peripheral at power-up.
pub struct ADC0 {
    /// Its register block.
    pub regs: AdcRegisters,
}

impl ADC0 {
    /// Take the peripheral at power-up, with the given settling delay.
    pub fn new(sync_lag: u8) -> (r: ADC0)
        ensures
            r.regs == AdcRegisters::spec_startup(sync_lag),
    {
        ADC0 { regs: AdcRegisters::startup(sync_lag) }
    }
}

/// The second converter peripheral at power-up.
pub struct ADC1 {
    /// Its register block.
    pub regs: AdcRegisters,
}

impl ADC1 {
    /// Take the peripheral at power-up, with the given settling delay.
    pub fn new(sync_lag: u8) -> (r: ADC1)
        ensures
            r.regs == AdcRegisters::spec_startup(sync_lag),
    {
        ADC1 { regs: AdcRegisters::startup(sync_lag) }
    }
}

/// `Adc` encapsulates one converter peripheral; the marker type records
/// which one.
pub struct Adc<ADC> {
    regs: AdcRegisters,
    marker: PhantomData<ADC>,
}

impl<A> Adc<A> {
    /// The converter's register block, as seen by specifications.
    pub closed spec fn spec_regs(&self) -> AdcRegisters {
        self.regs
    }

    /// Validity of the model: the synchronization indication is never
    /// settling towards busy, so every wait on it terminates.
    pub open spec fn wf(&self) -> bool {
        self.spec_regs().syncbusy.target == false
    }

    /// Set the sample rate, with the result-adjustment shift the
    /// datasheet prescribes for it.
    pub fn samples(&mut self, samples: SampleRate)
        ensures
            final(self).spec_regs() == (AdcRegisters {
                samplenum: samples.spec_bits(),
                adjres: samples.spec_adjres(),
                syncbusy: old(self).spec_regs().spec_synced(),
                ..old(self).spec_regs()
            }),
    {
        self.regs.samplenum = samples.bits();
        self.regs.adjres = samples.adjres();
        self.regs.write_and_sync();
    }

    /// Set the voltage reference.
    pub fn reference(&mut self, reference: Reference)
        ensures
            final(self).spec_regs() == (AdcRegisters {
                refsel: reference.spec_bits(),
                syncbusy: old(self).spec_regs().spec_synced(),
                ..old(self).spec_regs()
            }),
    {
        self.regs.refsel = reference.bits();
        self.regs.write_and_sync();
    }

    /// Set the prescaler for adjusting the clock relative to the system
    /// clock.
    pub fn prescaler(&mut self, prescaler: Prescaler)
        ensures
            final(self).spec_regs() == (AdcRegisters {
                prescaler: prescaler.spec_bits(),
                ..old(self).spec_regs()
            }),
    {
        self.regs.prescaler = prescaler.bits();
    }

    /// Set the input resolution.
    pub fn resolution(&mut self, resolution: Resolution)
        ensures
            final(self).spec_regs() == (AdcRegisters {
                ressel: resolution.spec_bits(),
                syncbusy: old(self).spec_regs().spec_synced(),
                ..old(self).spec_regs()
            }),
    {
        self.regs.ressel = resolution.bits();
        self.regs.write_and_sync();
    }

    /// Wait out pending synchronization, enable the converter, and wait
    /// for the enable to take effect.
    fn power_up(&mut self)
        requires
            old(self).wf(),
        ensures
            final(self).wf(),
            final(self).spec_regs() == old(self).spec_regs().spec_power_up(),
    {
        self.regs.syncbusy.wait_until(false);
        self.regs.enable = true;
        self.regs.write_and_sync();
    }

    /// Wait out pending synchronization, disable the converter, and wait
    /// for the disable to take effect.
    fn power_down(&mut self)
        requires
            old(self).wf(),
        ensures
            final(self).wf(),
            final(self).spec_regs() == old(self).spec_regs().spec_power_down(),
    {
        self.regs.syncbusy.wait_until(false);
        self.regs.enable = false;
        self.regs.write_and_sync();
    }

    /// Trigger a conversion in software; the hardware raises the
    /// result-ready flag when it finishes.
    #[inline(always)]
    fn start_conversion(&mut self)
        ensures
            final(self).spec_regs() == old(self).spec_regs().spec_trigger(),
    {
        let lag = self.regs.sync_lag;
        self.regs.if_resrdy.write(true, lag);
    }

    /// Turn on free-running mode.
    fn enable_freerunning(&mut self)
        ensures
            final(self).spec_regs() == (AdcRegisters {
                freerun: true,
                syncbusy: old(self).spec_regs().spec_synced(),
                ..old(self).spec_regs()
            }),
    {
        self.regs.freerun = true;
        self.regs.write_and_sync();
    }

    /// Leave free-running mode configured; the hardware keeps the mode
    /// bit latched until the converter is reset.
    fn disable_freerunning(&mut self)
        ensures
            final(self).spec_regs() == (AdcRegisters {
                freerun: true,
                syncbusy: old(self).spec_regs().spec_synced(),
                ..old(self).spec_regs()
            }),
    {
        self.regs.freerun = true;
        self.regs.write_and_sync();
    }

    /// Trigger a conversion and block until its result is ready.
    fn synchronous_convert(&mut self) -> (r: u16)
        ensures
            final(self).spec_regs() == (AdcRegisters {
                if_resrdy: old(self).spec_regs().spec_trigger().if_resrdy.spec_wait(true),
                ..old(self).spec_regs()
            }),
            r == old(self).spec_regs().result,
    {
        self.start_conversion();
        self.regs.if_resrdy.wait_until(true);
        self.regs.result
    }

    /// Enable the result-ready interrupt, clearing a stale flag first.
    fn enable_interrupts(&mut self)
        ensures
            final(self).spec_regs() == (AdcRegisters {
                ie_resrdy: true,
                if_resrdy: old(self).spec_regs().if_resrdy.spec_write(false, 0),
                ..old(self).spec_regs()
            }),
    {
        self.regs.if_resrdy.write(false, 0);
        self.regs.ie_resrdy = true;
    }

    /// Disable the result-ready interrupt.
    fn disable_interrupts(&mut self)
        ensures
            final(self).spec_regs() == (AdcRegisters {
                ie_resrdy: false,
                ..old(self).spec_regs()
            }),
    {
        self.regs.ie_resrdy = false;
    }

    /// If a conversion result is ready, clear the flag and hand the
    /// result out.
    fn service_interrupt_ready_inner(&mut self) -> (r: Option<u16>)
        ensures
            old(self).spec_regs().if_resrdy.spec_read_value() ==> r == Some(
                old(self).spec_regs().result,
            ) && final(self).spec_regs() == (AdcRegisters {
                if_resrdy: old(self).spec_regs().if_resrdy.spec_read().spec_write(false, 0),
                ..old(self).spec_regs()
            }),
            !old(self).spec_regs().if_resrdy.spec_read_value() ==> r is None && final(self).spec_regs() == (AdcRegisters {
                if_resrdy: old(self).spec_regs().if_resrdy.spec_read(),
                ..old(self).spec_regs()
            }),
    {
        if self.regs.if_resrdy.read() {
            self.regs.if_resrdy.write(false, 0);
            Some(self.regs.result)
        } else {
            None
        }
    }

    /// Sets the mux to a particular input channel. The mux is
    /// enable-protected, so this is called while the converter is
    /// disabled.
    fn mux(&mut self, channel: u8)
        requires
            old(self).wf(),
        ensures
            final(self).wf(),
            final(self).spec_regs() == (AdcRegisters {
                muxpos: channel,
                syncbusy: old(self).spec_regs().syncbusy.spec_wait(false),
                ..old(self).spec_regs()
            }),
    {
        self.regs.syncbusy.wait_until(false);
        self.regs.muxpos = channel;
    }

    /// Sample the given input channel once: route it to the converter,
    /// power up, convert synchronously, and power back down.
    pub fn read(&mut self, channel: u8) -> (r: u16)
        requires
            old(self).wf(),
        ensures
            final(self).wf(),
            r == old(self).spec_regs().result,
            final(self).spec_regs() == old(self).spec_regs().spec_one_shot(channel),
    {
        self.mux(channel);
        self.power_up();
        let result = self.synchronous_convert();
        self.power_down();
        result
    }

    /// Set the latest conversion result, as the hardware would at the
    /// end of a conversion.
    pub fn hw_set_result(&mut self, result: u16)
        ensures
            final(self).spec_regs() == (AdcRegisters { result, ..old(self).spec_regs() }),
    {
        self.regs.result = result;
    }
}

impl Adc<ADC0> {
    /// Bring up the ADC0 converter: gate its bus clock, configure and
    /// claim its peripheral clock from the 48 MHz source, program the
    /// prescaler, resolution, sampling time, input mux, calibration and
    /// default sample rate and reference.
    ///
    /// The generator and the converter's clock channel must still be
    /// unclaimed.
    pub fn adc0(adc: ADC0, mclk: &mut MCLK, clocks: &mut GenericClockController, gclk: ClockGenId) -> (r:
        Adc<ADC0>)
        requires
            adc.regs == AdcRegisters::spec_startup(adc.regs.sync_lag),
            old(clocks).wf(),
            old(clocks).spec_gclks()[gclk.spec_bits() as int].0 == 0,
            old(clocks).spec_pclk_free(ClockId::ADC0),
        ensures
            r.wf(),
            r.spec_regs().freerun == false,
            r.spec_regs().ie_resrdy == false,
            r.spec_regs().if_resrdy.target == false,
            *final(mclk) == (MCLK { apbd_adc0: true, ..*old(mclk) }),
            final(clocks).wf(),
            final(clocks).spec_gclks() == old(clocks).spec_gclks().update(
                gclk.spec_bits() as int,
                Hertz(OSC48M_FREQ),
            ),
            final(clocks).spec_used_clocks() == (old(clocks).spec_used_clocks() | (1u64 << (
            ClockId::ADC0.spec_index() as u64))),
            r.spec_regs().prescaler == Prescaler::DIV32.spec_bits(),
            r.spec_regs().ressel == Resolution::_12BIT.spec_bits(),
            r.spec_regs().samplen == 5,
            r.spec_regs().muxneg_gnd == true,
            r.spec_regs().biascomp == ADC_BIASCOMP_CAL,
            r.spec_regs().biasrefbuf == ADC_BIASREFBUF_CAL,
            r.spec_regs().biasr2r == ADC_BIASR2R_CAL,
            r.spec_regs().samplenum == SampleRate::_1.spec_bits(),
            r.spec_regs().adjres == SampleRate::_1.spec_adjres(),
            r.spec_regs().refsel == Reference::INTVCC1.spec_bits(),
            r.spec_regs().enable == false,
            r.spec_regs().result == adc.regs.result,
            r.spec_regs().sync_lag == adc.regs.sync_lag,
    {
        mclk.apbd_adc0 = true;
        let dac_clock = clocks.configure_gclk_divider_and_source(
            gclk,
            1,
            ClockSource::DFLL,
            false,
        );
        let adc_clock = match dac_clock {
            Some(g) => g,
            None => unreached(),
        };
        let claimed = clocks.adc0(&adc_clock);
        match claimed {
            Some(_) => (),
            None => unreached(),
        };
        let mut new_adc = Adc::<ADC0> { regs: adc.regs, marker: PhantomData };
        new_adc.regs.prescaler = Prescaler::DIV32.bits();
        new_adc.regs.ressel = Resolution::_12BIT.bits();
        new_adc.regs.write_and_sync();
        new_adc.regs.samplen = 5;
        new_adc.regs.write_and_sync();
        new_adc.regs.muxneg_gnd = true;
        new_adc.regs.write_and_sync();
        new_adc.regs.biascomp = ADC_BIASCOMP_CAL;
        new_adc.regs.biasrefbuf = ADC_BIASREFBUF_CAL;
        new_adc.regs.biasr2r = ADC_BIASR2R_CAL;
        new_adc.samples(SampleRate::_1);
        new_adc.reference(Reference::INTVCC1);
        new_adc
    }
}

impl Adc<ADC1> {
    /// Bring up the ADC1 converter: gate its bus clock, configure and
    /// claim its peripheral clock from the 48 MHz source, program the
    /// prescaler, resolution, sampling time, input mux, calibration and
    /// default sample rate and reference.
    ///
    /// The generator and the converter's clock channel must still be
    /// unclaimed.
    pub fn adc1(adc: ADC1, mclk: &mut MCLK, clocks: &mut GenericClockController, gclk: ClockGenId) -> (r:
        Adc<ADC1>)
        requires
            adc.regs == AdcRegisters::spec_startup(adc.regs.sync_lag),
            old(clocks).wf(),
            old(clocks).spec_gclks()[gclk.spec_bits() as int].0 == 0,
            old(clocks).spec_pclk_free(ClockId::ADC1),
        ensures
            r.wf(),
            r.spec_regs().freerun == false,
            r.spec_regs().ie_resrdy == false,
            r.spec_regs().if_resrdy.target == false,
            *final(mclk) == (MCLK { apbd_adc1: true, ..*old(mclk) }),
            final(clocks).wf(),
            final(clocks).spec_gclks() == old(clocks).spec_gclks().update(
                gclk.spec_bits() as int,
                Hertz(OSC48M_FREQ),
            ),
            final(clocks).spec_used_clocks() == (old(clocks).spec_used_clocks() | (1u64 << (
            ClockId::ADC1.spec_index() as u64))),
            r.spec_regs().prescaler == Prescaler::DIV32.spec_bits(),
            r.spec_regs().ressel == Resolution::_12BIT.spec_bits(),
            r.spec_regs().samplen == 5,
            r.spec_regs().muxneg_gnd == true,
            r.spec_regs().biascomp == ADC_BIASCOMP_CAL,
            r.spec_regs().biasrefbuf == ADC_BIASREFBUF_CAL,
            r.spec_regs().biasr2r == ADC_BIASR2R_CAL,
            r.spec_regs().samplenum == SampleRate::_1.spec_bits(),
            r.spec_regs().adjres == SampleRate::_1.spec_adjres(),
            r.spec_regs().refsel == Reference::INTVCC1.spec_bits(),
            r.spec_regs().enable == false,
            r.spec_regs().result == adc.regs.result,
            r.spec_regs().sync_lag == adc.regs.sync_lag,
    {
        mclk.apbd_adc1 = true;
        let dac_clock = clocks.configure_gclk_divider_and_source(
            gclk,
            1,
            ClockSource::DFLL,
            false,
        );
        let adc_clock = match dac_clock {
            Some(g) => g,
            None => unreached(),
        };
        let claimed = clocks.adc1(&adc_clock);
        match claimed {
            Some(_) => (),
            None => unreached(),
        };
        let mut new_adc = Adc::<ADC1> { regs: adc.regs, marker: PhantomData };
        new_adc.regs.prescaler = Prescaler::DIV32.bits();
        new_adc.regs.ressel = Resolution::_12BIT.bits();
        new_adc.regs.write_and_sync();
        new_adc.regs.samplen = 5;
        new_adc.regs.write_and_sync();
        new_adc.regs.muxneg_gnd = true;
        new_adc.regs.write_and_sync();
        new_adc.regs.biascomp = ADC_BIASCOMP_CAL;
        new_adc.regs.biasrefbuf = ADC_BIASREFBUF_CAL;
        new_adc.regs.biasr2r = ADC_BIASR2R_CAL;
        new_adc.samples(SampleRate::_1);
        new_adc.reference(Reference::INTVCC1);
        new_adc
    }
}

/// Describes how an interrupt-driven conversion finalizes the
/// peripheral when a conversion completes or is stopped.
pub trait ConversionMode<A> {
    /// The register effect of preparing the converter at start.
    spec fn spec_on_start(regs: AdcRegisters) -> AdcRegisters;

    /// The register effect of finalizing a completed conversion.
    spec fn spec_on_complete(regs: AdcRegisters) -> AdcRegisters;

    /// The register effect of stopping conversions.
    spec fn spec_on_stop(regs: AdcRegisters) -> AdcRegisters;

    /// Prepare the converter when conversions start.
    fn on_start(adc: &mut Adc<A>)
        requires
            old(adc).wf(),
        ensures
            final(adc).wf(),
            final(adc).spec_regs() == Self::spec_on_start(old(adc).spec_regs()),
    ;

    /// Finalize the converter after a completed conversion.
    fn on_complete(adc: &mut Adc<A>)
        requires
            old(adc).wf(),
        ensures
            final(adc).wf(),
            final(adc).spec_regs() == Self::spec_on_complete(old(adc).spec_regs()),
    ;

    /// Finalize the converter when conversions stop.
    fn on_stop(adc: &mut Adc<A>)
        requires
            old(adc).wf(),
        ensures
            final(adc).wf(),
            final(adc).spec_regs() == Self::spec_on_stop(old(adc).spec_regs()),
    ;
}

/// One conversion per start: completing a conversion powers the
/// converter down and disables its interrupt.
pub struct SingleConversion;

/// Continuous conversions: the converter free-runs until stopped.
pub struct FreeRunning;

impl<A> ConversionMode<A> for SingleConversion {
    open spec fn spec_on_start(regs: AdcRegisters) -> AdcRegisters {
        regs
    }

    open spec fn spec_on_complete(regs: AdcRegisters) -> AdcRegisters {
        (AdcRegisters { ie_resrdy: false, ..regs }).spec_power_down()
    }

    open spec fn spec_on_stop(regs: AdcRegisters) -> AdcRegisters {
        regs
    }

    fn on_start(_adc: &mut Adc<A>) {
    }

    fn on_complete(adc: &mut Adc<A>) {
        adc.disable_interrupts();
        adc.power_down();
    }

    fn on_stop(_adc: &mut Adc<A>) {
    }
}

impl<A> ConversionMode<A> for FreeRunning {
    open spec fn spec_on_start(regs: AdcRegisters) -> AdcRegisters {
        AdcRegisters { freerun: true, syncbusy: regs.spec_synced(), ..regs }
    }

    open spec fn spec_on_complete(regs: AdcRegisters) -> AdcRegisters {
        regs
    }

    open spec fn spec_on_stop(regs: AdcRegisters) -> AdcRegisters {
        AdcRegisters {
            freerun: true,
            ie_resrdy: false,
            syncbusy: (AdcRegisters {
                ie_resrdy: false,
                ..regs
            }).spec_power_down().spec_synced(),
            ..(AdcRegisters { ie_resrdy: false, ..regs }).spec_power_down()
        }
    }

    fn on_start(adc: &mut Adc<A>) {
        adc.enable_freerunning();
    }

    fn on_complete(_adc: &mut Adc<A>) {
    }

    fn on_stop(adc: &mut Adc<A>) {
        adc.disable_interrupts();
        adc.power_down();
        adc.disable_freerunning();
    }
}

/// An interrupt-driven converter: results are collected by servicing the
/// result-ready interrupt, and the [`ConversionMode`] decides how the
/// peripheral is finalized.
pub struct InterruptAdc<ADC, C> {
    adc: Adc<ADC>,
    m: PhantomData<C>,
}

impl<A, C: ConversionMode<A>> InterruptAdc<A, C> {
    /// The converter's register block, as seen by specifications.
    pub closed spec fn spec_regs(&self) -> AdcRegisters {
        self.adc.spec_regs()
    }

    /// Validity of the model: the synchronization indication is never
    /// settling towards busy.
    pub open spec fn wf(&self) -> bool {
        self.spec_regs().syncbusy.target == false
    }

    /// The register contents after conversions have been started on the
    /// given input channel: the channel is routed, the converter powered
    /// up and prepared by the mode, a stale result flag cleared, the
    /// result interrupt enabled, and the first conversion triggered.
    pub open spec fn spec_start_conversion_regs(regs: AdcRegisters, channel: u8) -> AdcRegisters {
        let muxed = AdcRegisters { muxpos: channel, syncbusy: regs.syncbusy.spec_wait(false), ..regs };
        let started = C::spec_on_start(muxed.spec_power_up());
        let enabled = AdcRegisters {
            ie_resrdy: true,
            if_resrdy: started.if_resrdy.spec_write(false, 0),
            ..started
        };
        AdcRegisters {
            if_resrdy: enabled.if_resrdy.spec_write(true, enabled.sync_lag),
            ..enabled
        }
    }

    /// Service the result-ready interrupt: if a result is ready, clear
    /// the flag, finalize the conversion as the mode prescribes, and
    /// hand the result out.
    pub fn service_interrupt_ready(&mut self) -> (r: Option<u16>)
        requires
            old(self).wf(),
        ensures
            final(self).wf(),
            old(self).spec_regs().if_resrdy.spec_read_value() ==> r == Some(
                old(self).spec_regs().result,
            ) && final(self).spec_regs() == C::spec_on_complete(
                AdcRegisters {
                    if_resrdy: old(self).spec_regs().if_resrdy.spec_read().spec_write(false, 0),
                    ..old(self).spec_regs()
                },
            ),
            !old(self).spec_regs().if_resrdy.spec_read_value() ==> r is None && final(self).spec_regs() == (AdcRegisters {
                if_resrdy: old(self).spec_regs().if_resrdy.spec_read(),
                ..old(self).spec_regs()
            }),
    {
        match self.adc.service_interrupt_ready_inner() {
            Some(res) => {
                C::on_complete(&mut self.adc);
                Some(res)
            },
            None => None,
        }
    }

    /// Starts conversions sampling the given input channel.
    pub fn start_conversion(&mut self, channel: u8)
        requires
            old(self).wf(),
        ensures
            final(self).wf(),
            final(self).spec_regs() == Self::spec_start_conversion_regs(
                old(self).spec_regs(),
                channel,
            ),
    {
        self.adc.mux(channel);
        self.adc.power_up();
        C::on_start(&mut self.adc);
        self.adc.enable_interrupts();
        self.adc.start_conversion();
    }

    /// Stop conversions, finalizing the peripheral as the mode
    /// prescribes.
    pub fn stop_conversion(&mut self)
        requires
            old(self).wf(),
        ensures
            final(self).wf(),
            final(self).spec_regs() == C::spec_on_stop(old(self).spec_regs()),
    {
        C::on_stop(&mut self.adc);
    }
}

impl<A, C: ConversionMode<A>> From<Adc<A>> for InterruptAdc<A, C> {
    /// An interrupt-driven converter is built over a configured `Adc`.
    fn from(adc: Adc<A>) -> Self {
        Self { adc, m: PhantomData }
    }
}

impl<A, C: ConversionMode<A>> vstd::std_specs::convert::FromSpecImpl<Adc<A>> for InterruptAdc<A, C> {
    closed spec fn obeys_from_spec() -> bool {
        true
    }

    closed spec fn from_spec(adc: Adc<A>) -> Self {
        InterruptAdc { adc, m: PhantomData }
    }
}

} // verus!
