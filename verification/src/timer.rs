//! Working with timer counter hardware.
//!
//! The counters are exposed in 16-bit mode only. Before a hardware timer
//! can be used, its peripheral clock must be configured: each constructor
//! takes the matching clock token. `start` programs a periodic timeout
//! and `wait` polls the overflow flag in the non-blocking idiom: it
//! reports `WouldBlock` until the period elapses.

use vstd::prelude::*;

use crate::clock::Tc2Tc3Clock;
use crate::clock::Tc4Tc5Clock;
use crate::periph::MCLK;
use crate::port::SyncFlag;
use crate::port::sat_add;
use crate::time::Hertz;
use crate::time::Nanoseconds;

verus! {

/// The error of a non-blocking poll that found the operation still in
/// progress.
#[derive(Clone, Copy, PartialEq, Eq, Structural, Debug)]
pub struct WouldBlock;

/// The divider and cycle count that realise a timeout at a given source
/// clock frequency.
#[derive(Clone, Copy, PartialEq, Eq, Structural, Debug)]
pub struct TimerParams {
    /// Prescaler division factor, one of the eight the hardware offers.
    pub divider: u16,
    /// Counter compare value, guaranteed to fit the 16-bit counter.
    pub cycles: u32,
}

/// Source-clock ticks in the given timeout.
pub open spec fn spec_ticks(timeout: Nanoseconds, src_freq: u32) -> int {
    (timeout.0 * src_freq) / 1_000_000_000
}

/// The smallest hardware divider that brings the tick count within the
/// 16-bit counter range.
pub open spec fn spec_divider(ticks: int) -> u16 {
    if ticks <= 0xffff {
        1
    } else if ticks / 2 <= 0xffff {
        2
    } else if ticks / 4 <= 0xffff {
        4
    } else if ticks / 8 <= 0xffff {
        8
    } else if ticks / 16 <= 0xffff {
        16
    } else if ticks / 64 <= 0xffff {
        64
    } else if ticks / 256 <= 0xffff {
        256
    } else {
        1024
    }
}

/// The prescaler register encoding of each hardware divider.
pub open spec fn spec_prescaler_bits(divider: u16) -> u8 {
    if divider == 1 {
        0
    } else if divider == 2 {
        1
    } else if divider == 4 {
        2
    } else if divider == 8 {
        3
    } else if divider == 16 {
        4
    } else if divider == 64 {
        5
    } else if divider == 256 {
        6
    } else {
        7
    }
}

impl TimerParams {
    /// Compute the divider and cycle count for a timeout at `src_freq`.
    /// The timeout must be realisable: even the largest divider must
    /// bring the tick count into the 16-bit counter range.
    pub fn new_us(timeout: Nanoseconds, src_freq: u32) -> (r: TimerParams)
        requires
            spec_ticks(timeout, src_freq) / 1024 <= 0xffff,
        ensures
            r.divider == spec_divider(spec_ticks(timeout, src_freq)),
            r.cycles == spec_ticks(timeout, src_freq) / r.divider as int,
            r.cycles <= 0xffff,
    {
        let ticks: u64 = (timeout.0 as u64) * (src_freq as u64) / 1_000_000_000;
        let divider: u16 = if ticks <= 0xffff {
            1
        } else if ticks / 2 <= 0xffff {
            2
        } else if ticks / 4 <= 0xffff {
            4
        } else if ticks / 8 <= 0xffff {
            8
        } else if ticks / 16 <= 0xffff {
            16
        } else if ticks / 64 <= 0xffff {
            64
        } else if ticks / 256 <= 0xffff {
            256
        } else {
            1024
        };
        let cycles: u64 = ticks / divider as u64;
        TimerParams { divider, cycles: cycles as u32 }
    }
}

/// The register block of a timer counter in 16-bit mode, modelled as
/// plain data plus settling bits (see [`crate::port`]).
#[derive(Clone, Copy, PartialEq, Eq, Structural, Debug)]
pub struct Count16Regs {
    /// Software-reset bit; reads as set while the reset is in progress.
    pub swrst: SyncFlag,
    /// Counter enable.
    pub enable: bool,
    /// Prescaler selection.
    pub prescaler: u8,
    /// Keep running in standby.
    pub runstdby: bool,
    /// Count down instead of up.
    pub dir_down: bool,
    /// Stop after one period instead of running periodically.
    pub oneshot: bool,
    /// Compare value that sets the period.
    pub cc0: u16,
    /// Match-frequency waveform generation selected.
    pub wavegen_mfrq: bool,
    /// Overflow interrupt enable.
    pub intenset_ovf: bool,
    /// Interrupt flag: overflow.
    pub if_ovf: SyncFlag,
    /// Interrupt flag: error.
    pub if_err: SyncFlag,
    /// Interrupt flag: match or capture channel 0.
    pub if_mc0: SyncFlag,
    /// Interrupt flag: match or capture channel 1.
    pub if_mc1: SyncFlag,
    /// Period-buffer-valid bit; reads as set while a configuration write
    /// is still settling.
    pub status_perbufv: SyncFlag,
    /// Settling delay this block exhibits.
    pub sync_lag: u8,
}

impl Count16Regs {
    /// Register contents at power-up, with the given settling delay.
    pub open spec fn spec_startup(sync_lag: u8) -> Count16Regs {
        Count16Regs {
            swrst: SyncFlag::spec_new(false),
            enable: false,
            prescaler: 0,
            runstdby: false,
            dir_down: false,
            oneshot: false,
            cc0: 0,
            wavegen_mfrq: false,
            intenset_ovf: false,
            if_ovf: SyncFlag::spec_new(false),
            if_err: SyncFlag::spec_new(false),
            if_mc0: SyncFlag::spec_new(false),
            if_mc1: SyncFlag::spec_new(false),
            status_perbufv: SyncFlag::spec_new(false),
            sync_lag,
        }
    }

    pub fn startup(sync_lag: u8) -> (r: Count16Regs)
        ensures
            r == Self::spec_startup(sync_lag),
    {
        Count16Regs {
            swrst: SyncFlag::new(false),
            enable: false,
            prescaler: 0,
            runstdby: false,
            dir_down: false,
            oneshot: false,
            cc0: 0,
            wavegen_mfrq: false,
            intenset_ovf: false,
            if_ovf: SyncFlag::new(false),
            if_err: SyncFlag::new(false),
            if_mc0: SyncFlag::new(false),
            if_mc1: SyncFlag::new(false),
            status_perbufv: SyncFlag::new(false),
            sync_lag,
        }
    }

    /// Contents after the counter is disabled and the write has settled.
    pub open spec fn spec_disable_sync(self) -> Count16Regs {
        Count16Regs {
            enable: false,
            status_perbufv: self.status_perbufv.spec_pulse(self.sync_lag).spec_wait(false),
            ..self
        }
    }

    /// Disable the counter and spin until the write settles.
    pub fn disable_and_sync(&mut self)
        ensures
            *final(self) == old(self).spec_disable_sync(),
    {
        let lag = self.sync_lag;
        self.enable = false;
        self.status_perbufv.pulse(lag);
        self.status_perbufv.wait_until(false);
    }

    /// Contents after a software reset has completed: all control and
    /// flag state returns to its startup value; the settling-delay
    /// parameter and the capture counters are kept.
    pub open spec fn spec_reset(self) -> Count16Regs {
        Count16Regs {
            swrst: SyncFlag {
                observed: false,
                target: false,
                lag: 0,
                reads: sat_add(self.swrst.reads, (self.sync_lag + 1) as nat),
                writes: sat_add(self.swrst.writes, 1),
            },
            enable: false,
            prescaler: 0,
            runstdby: false,
            dir_down: false,
            oneshot: false,
            cc0: 0,
            wavegen_mfrq: false,
            intenset_ovf: false,
            if_ovf: SyncFlag { observed: false, target: false, lag: 0, ..self.if_ovf },
            if_err: SyncFlag { observed: false, target: false, lag: 0, ..self.if_err },
            if_mc0: SyncFlag { observed: false, target: false, lag: 0, ..self.if_mc0 },
            if_mc1: SyncFlag { observed: false, target: false, lag: 0, ..self.if_mc1 },
            status_perbufv: self.status_perbufv.spec_pulse(self.sync_lag).spec_wait(false),
            sync_lag: self.sync_lag,
        }
    }

    /// Software-reset the counter and spin until the hardware confirms it.
    pub fn reset_and_sync(&mut self)
        ensures
            *final(self) == old(self).spec_reset(),
    {
        let lag = self.sync_lag;
        let saved = *self;
        self.swrst.pulse(lag);
        self.status_perbufv.pulse(lag);
        self.status_perbufv.wait_until(false);
        self.swrst.wait_until(false);
        let swrst = self.swrst;
        let perbufv = self.status_perbufv;
        let mut regs = Count16Regs::startup(lag);
        regs.swrst = swrst;
        regs.status_perbufv = perbufv;
        regs.if_ovf = SyncFlag { observed: false, target: false, lag: 0, ..saved.if_ovf };
        regs.if_err = SyncFlag { observed: false, target: false, lag: 0, ..saved.if_err };
        regs.if_mc0 = SyncFlag { observed: false, target: false, lag: 0, ..saved.if_mc0 };
        regs.if_mc1 = SyncFlag { observed: false, target: false, lag: 0, ..saved.if_mc1 };
        self.port_replace(regs);
    }

    /// Replace the whole block (an internal helper for composite writes).
    fn port_replace(&mut self, regs: Count16Regs)
        ensures
            *final(self) == regs,
    {
        *self = regs;
    }

    /// Contents after a periodic timeout has been programmed: the counter
    /// was reset, counts up periodically in match-frequency mode with the
    /// given prescaler and compare value, and runs, in standby too.
    pub open spec fn spec_started(self, prescaler: u8, cycles: u16) -> Count16Regs {
        Count16Regs {
            enable: true,
            prescaler,
            runstdby: true,
            cc0: cycles,
            wavegen_mfrq: true,
            ..self.spec_disable_sync().spec_reset()
        }
    }
}

/// The TC2 timer counter peripheral, in 16-bit mode.
pub struct TC2 {
    regs: Count16Regs,
}

impl TC2 {
    /// The counter's register block, as seen by specifications.
    pub closed spec fn spec_regs(&self) -> Count16Regs {
        self.regs
    }

    /// Take the peripheral at power-up, with the given settling delay.
    pub fn new(sync_lag: u8) -> (r: TC2)
        ensures
            r.spec_regs() == Count16Regs::spec_startup(sync_lag),
    {
        TC2 { regs: Count16Regs::startup(sync_lag) }
    }

    /// Shared view of the 16-bit counter registers.
    pub fn count16(&self) -> (r: &Count16Regs)
        ensures
            *r == self.spec_regs(),
    {
        &self.regs
    }
}

impl Count16 for TC2 {
    closed spec fn spec_count16(&self) -> Count16Regs {
        self.regs
    }

    fn count_16(&self) -> (r: &Count16Regs) {
        &self.regs
    }
}

/// The TC3 timer counter peripheral, in 16-bit mode.
pub struct TC3 {
    regs: Count16Regs,
}

impl TC3 {
    /// The counter's register block, as seen by specifications.
    pub closed spec fn spec_regs(&self) -> Count16Regs {
        self.regs
    }

    /// Take the peripheral at power-up, with the given settling delay.
    pub fn new(sync_lag: u8) -> (r: TC3)
        ensures
            r.spec_regs() == Count16Regs::spec_startup(sync_lag),
    {
        TC3 { regs: Count16Regs::startup(sync_lag) }
    }

    /// Shared view of the 16-bit counter registers.
    pub fn count16(&self) -> (r: &Count16Regs)
        ensures
            *r == self.spec_regs(),
    {
        &self.regs
    }
}

impl Count16 for TC3 {
    closed spec fn spec_count16(&self) -> Count16Regs {
        self.regs
    }

    fn count_16(&self) -> (r: &Count16Regs) {
        &self.regs
    }
}

/// The TC4 timer counter peripheral, in 16-bit mode.
pub struct TC4 {
    regs: Count16Regs,
}

impl TC4 {
    /// The counter's register block, as seen by specifications.
    pub closed spec fn spec_regs(&self) -> Count16Regs {
        self.regs
    }

    /// Take the peripheral at power-up, with the given settling delay.
    pub fn new(sync_lag: u8) -> (r: TC4)
        ensures
            r.spec_regs() == Count16Regs::spec_startup(sync_lag),
    {
        TC4 { regs: Count16Regs::startup(sync_lag) }
    }

    /// Shared view of the 16-bit counter registers.
    pub fn count16(&self) -> (r: &Count16Regs)
        ensures
            *r == self.spec_regs(),
    {
        &self.regs
    }
}

impl Count16 for TC4 {
    closed spec fn spec_count16(&self) -> Count16Regs {
        self.regs
    }

    fn count_16(&self) -> (r: &Count16Regs) {
        &self.regs
    }
}

/// The TC5 timer counter peripheral, in 16-bit mode.
pub struct TC5 {
    regs: Count16Regs,
}

impl TC5 {
    /// The counter's register block, as seen by specifications.
    pub closed spec fn spec_regs(&self) -> Count16Regs {
        self.regs
    }

    /// Take the peripheral at power-up, with the given settling delay.
    pub fn new(sync_lag: u8) -> (r: TC5)
        ensures
            r.spec_regs() == Count16Regs::spec_startup(sync_lag),
    {
        TC5 { regs: Count16Regs::startup(sync_lag) }
    }

    /// Shared view of the 16-bit counter registers.
    pub fn count16(&self) -> (r: &Count16Regs)
        ensures
            *r == self.spec_regs(),
    {
        &self.regs
    }
}

impl Count16 for TC5 {
    closed spec fn spec_count16(&self) -> Count16Regs {
        self.regs
    }

    fn count_16(&self) -> (r: &Count16Regs) {
        &self.regs
    }
}

/// Access to a peripheral's 16-bit counter register block. A helper
/// trait that makes it easy to treat the timer instances uniformly; it
/// makes little sense to implement it outside this module.
pub trait Count16 {
    /// The counter's register block, as seen by specifications.
    spec fn spec_count16(&self) -> Count16Regs;

    /// Shared view of the 16-bit counter registers.
    fn count_16(&self) -> (r: &Count16Regs)
        ensures
            *r == self.spec_count16(),
    ;
}

/// A generic hardware timer counter, exposed in 16-bit mode.
///
/// Before a hardware timer can be used, it must first have a clock
/// configured. `start` programs a periodic timeout; `wait` reports
/// whether the period has elapsed, clearing the overflow flag when it
/// has.
pub struct TimerCounter<TC> {
    freq: Hertz,
    tc: TC,
}

/// TimerCounter2 driven by the TC2 peripheral.
pub type TimerCounter2 = TimerCounter<TC2>;

impl TimerCounter<TC2> {
    /// The source clock frequency, as seen by specifications.
    pub closed spec fn spec_freq(&self) -> Hertz {
        self.freq
    }

    /// The counter's register block, as seen by specifications.
    pub closed spec fn spec_regs(&self) -> Count16Regs {
        self.tc.regs
    }

    /// Configure this timer counter instance. The clock is obtained from
    /// the clock controller and its frequency impacts the resolution and
    /// maximum range of the timeouts that can be passed to `start`. Note
    /// that some hardware timer instances share the same clock generator
    /// and thus will be clocked at the same rate.
    pub fn tc2_(clock: &Tc2Tc3Clock, tc: TC2, mclk: &mut MCLK) -> (r: TimerCounter<TC2>)
        ensures
            *final(mclk) == (MCLK { apbb_tc2: true, ..*old(mclk) }),
            r.spec_freq() == clock.spec_freq(),
            r.spec_regs() == tc.spec_regs().spec_disable_sync(),
    {
        mclk.apbb_tc2 = true;
        let mut tc = tc;
        tc.regs.disable_and_sync();
        TimerCounter { freq: clock.freq(), tc }
    }

    /// Program a periodic timeout: reset the counter, then run it in
    /// match-frequency mode with the divider and compare value that
    /// realise the timeout at this timer's clock rate.
    pub fn start(&mut self, timeout: Nanoseconds)
        requires
            spec_ticks(timeout, old(self).spec_freq().0) / 1024 <= 0xffff,
        ensures
            final(self).spec_freq() == old(self).spec_freq(),
            final(self).spec_regs() == old(self).spec_regs().spec_started(
                spec_prescaler_bits(spec_divider(spec_ticks(timeout, old(self).spec_freq().0))),
                (spec_ticks(timeout, old(self).spec_freq().0) / spec_divider(
                    spec_ticks(timeout, old(self).spec_freq().0),
                ) as int) as u16,
            ),
    {
        let params = TimerParams::new_us(timeout, self.freq.0);
        let divider = params.divider;
        let cycles = params.cycles;

        // Disable the timer while we reconfigure it, then ask it to
        // perform a reset.
        self.tc.regs.disable_and_sync();
        self.tc.regs.reset_and_sync();

        // Count up when the direction bit is zero, periodically
        self.tc.regs.dir_down = false;
        self.tc.regs.oneshot = false;

        // Set the period in match-frequency mode
        self.tc.regs.cc0 = cycles as u16;
        self.tc.regs.wavegen_mfrq = true;

        self.tc.regs.prescaler = if divider == 1 {
            0
        } else if divider == 2 {
            1
        } else if divider == 4 {
            2
        } else if divider == 8 {
            3
        } else if divider == 16 {
            4
        } else if divider == 64 {
            5
        } else if divider == 256 {
            6
        } else {
            7
        };
        self.tc.regs.enable = true;
        self.tc.regs.runstdby = true;
    }

    /// Poll for the period to elapse: when the overflow flag reads as
    /// set, clear it and report success, otherwise report `WouldBlock`.
    pub fn wait(&mut self) -> (r: Result<(), WouldBlock>)
        ensures
            final(self).spec_freq() == old(self).spec_freq(),
            old(self).spec_regs().if_ovf.spec_read_value() ==> r is Ok && final(self).spec_regs()
                == (Count16Regs {
                if_ovf: old(self).spec_regs().if_ovf.spec_read().spec_write(false, 0),
                ..old(self).spec_regs()
            }),
            !old(self).spec_regs().if_ovf.spec_read_value() ==> r == Result::<(), WouldBlock>::Err(
                WouldBlock,
            ) && final(self).spec_regs() == (Count16Regs {
                if_ovf: old(self).spec_regs().if_ovf.spec_read(),
                ..old(self).spec_regs()
            }),
    {
        if self.tc.regs.if_ovf.read() {
            // Writing a one clears the flag
            self.tc.regs.if_ovf.write(false, 0);
            Ok(())
        } else {
            Err(WouldBlock)
        }
    }

    /// Enable the overflow interrupt for this hardware timer. This only
    /// sets the peripheral-level enable; it does not configure the
    /// interrupt controller or define a handler.
    pub fn enable_interrupt(&mut self)
        ensures
            final(self).spec_freq() == old(self).spec_freq(),
            final(self).spec_regs() == (Count16Regs {
                intenset_ovf: true,
                ..old(self).spec_regs()
            }),
    {
        self.tc.regs.intenset_ovf = true;
    }

    /// Disable the overflow interrupt for this hardware timer.
    pub fn disable_interrupt(&mut self)
        ensures
            final(self).spec_freq() == old(self).spec_freq(),
            final(self).spec_regs() == (Count16Regs {
                intenset_ovf: false,
                ..old(self).spec_regs()
            }),
    {
        self.tc.regs.intenset_ovf = false;
    }

    /// The source clock frequency this timer was configured with.
    pub fn freq(&self) -> (r: Hertz)
        ensures
            r == self.spec_freq(),
    {
        self.freq
    }

    /// The programmed compare value.
    pub fn cc0(&self) -> (r: u16)
        ensures
            r == self.spec_regs().cc0,
    {
        self.tc.regs.cc0
    }

    /// The programmed prescaler encoding.
    pub fn prescaler_bits(&self) -> (r: u8)
        ensures
            r == self.spec_regs().prescaler,
    {
        self.tc.regs.prescaler
    }

    /// Whether the counter is enabled.
    pub fn is_enabled(&self) -> (r: bool)
        ensures
            r == self.spec_regs().enable,
    {
        self.tc.regs.enable
    }

    /// Raise interrupt flags as the hardware would at period overflow,
    /// error, or compare match.
    pub fn hw_raise_irq(&mut self, ovf: bool, err: bool, mc0: bool, mc1: bool)
        ensures
            final(self).spec_freq() == old(self).spec_freq(),
            final(self).spec_regs() == (Count16Regs {
                if_ovf: if ovf {
                    old(self).spec_regs().if_ovf.spec_write(true, 0)
                } else {
                    old(self).spec_regs().if_ovf
                },
                if_err: if err {
                    old(self).spec_regs().if_err.spec_write(true, 0)
                } else {
                    old(self).spec_regs().if_err
                },
                if_mc0: if mc0 {
                    old(self).spec_regs().if_mc0.spec_write(true, 0)
                } else {
                    old(self).spec_regs().if_mc0
                },
                if_mc1: if mc1 {
                    old(self).spec_regs().if_mc1.spec_write(true, 0)
                } else {
                    old(self).spec_regs().if_mc1
                },
                ..old(self).spec_regs()
            }),
    {
        if ovf {
            self.tc.regs.if_ovf.write(true, 0);
        }
        if err {
            self.tc.regs.if_err.write(true, 0);
        }
        if mc0 {
            self.tc.regs.if_mc0.write(true, 0);
        }
        if mc1 {
            self.tc.regs.if_mc1.write(true, 0);
        }
    }
}

/// TimerCounter3 driven by the TC3 peripheral.
pub type TimerCounter3 = TimerCounter<TC3>;

impl TimerCounter<TC3> {
    /// The source clock frequency, as seen by specifications.
    pub closed spec fn spec_freq(&self) -> Hertz {
        self.freq
    }

    /// The counter's register block, as seen by specifications.
    pub closed spec fn spec_regs(&self) -> Count16Regs {
        self.tc.regs
    }

    /// Configure this timer counter instance. The clock is obtained from
    /// the clock controller and its frequency impacts the resolution and
    /// maximum range of the timeouts that can be passed to `start`. Note
    /// that some hardware timer instances share the same clock generator
    /// and thus will be clocked at the same rate.
    pub fn tc3_(clock: &Tc2Tc3Clock, tc: TC3, mclk: &mut MCLK) -> (r: TimerCounter<TC3>)
        ensures
            *final(mclk) == (MCLK { apbb_tc3: true, ..*old(mclk) }),
            r.spec_freq() == clock.spec_freq(),
            r.spec_regs() == tc.spec_regs().spec_disable_sync(),
    {
        mclk.apbb_tc3 = true;
        let mut tc = tc;
        tc.regs.disable_and_sync();
        TimerCounter { freq: clock.freq(), tc }
    }

    /// Program a periodic timeout: reset the counter, then run it in
    /// match-frequency mode with the divider and compare value that
    /// realise the timeout at this timer's clock rate.
    pub fn start(&mut self, timeout: Nanoseconds)
        requires
            spec_ticks(timeout, old(self).spec_freq().0) / 1024 <= 0xffff,
        ensures
            final(self).spec_freq() == old(self).spec_freq(),
            final(self).spec_regs() == old(self).spec_regs().spec_started(
                spec_prescaler_bits(spec_divider(spec_ticks(timeout, old(self).spec_freq().0))),
                (spec_ticks(timeout, old(self).spec_freq().0) / spec_divider(
                    spec_ticks(timeout, old(self).spec_freq().0),
                ) as int) as u16,
            ),
    {
        let params = TimerParams::new_us(timeout, self.freq.0);
        let divider = params.divider;
        let cycles = params.cycles;

        // Disable the timer while we reconfigure it, then ask it to
        // perform a reset.
        self.tc.regs.disable_and_sync();
        self.tc.regs.reset_and_sync();

        // Count up when the direction bit is zero, periodically
        self.tc.regs.dir_down = false;
        self.tc.regs.oneshot = false;

        // Set the period in match-frequency mode
        self.tc.regs.cc0 = cycles as u16;
        self.tc.regs.wavegen_mfrq = true;

        self.tc.regs.prescaler = if divider == 1 {
            0
        } else if divider == 2 {
            1
        } else if divider == 4 {
            2
        } else if divider == 8 {
            3
        } else if divider == 16 {
            4
        } else if divider == 64 {
            5
        } else if divider == 256 {
            6
        } else {
            7
        };
        self.tc.regs.enable = true;
        self.tc.regs.runstdby = true;
    }

    /// Poll for the period to elapse: when the overflow flag reads as
    /// set, clear it and report success, otherwise report `WouldBlock`.
    pub fn wait(&mut self) -> (r: Result<(), WouldBlock>)
        ensures
            final(self).spec_freq() == old(self).spec_freq(),
            old(self).spec_regs().if_ovf.spec_read_value() ==> r is Ok && final(self).spec_regs()
                == (Count16Regs {
                if_ovf: old(self).spec_regs().if_ovf.spec_read().spec_write(false, 0),
                ..old(self).spec_regs()
            }),
            !old(self).spec_regs().if_ovf.spec_read_value() ==> r == Result::<(), WouldBlock>::Err(
                WouldBlock,
            ) && final(self).spec_regs() == (Count16Regs {
                if_ovf: old(self).spec_regs().if_ovf.spec_read(),
                ..old(self).spec_regs()
            }),
    {
        if self.tc.regs.if_ovf.read() {
            // Writing a one clears the flag
            self.tc.regs.if_ovf.write(false, 0);
            Ok(())
        } else {
            Err(WouldBlock)
        }
    }

    /// Enable the overflow interrupt for this hardware timer. This only
    /// sets the peripheral-level enable; it does not configure the
    /// interrupt controller or define a handler.
    pub fn enable_interrupt(&mut self)
        ensures
            final(self).spec_freq() == old(self).spec_freq(),
            final(self).spec_regs() == (Count16Regs {
                intenset_ovf: true,
                ..old(self).spec_regs()
            }),
    {
        self.tc.regs.intenset_ovf = true;
    }

    /// Disable the overflow interrupt for this hardware timer.
    pub fn disable_interrupt(&mut self)
        ensures
            final(self).spec_freq() == old(self).spec_freq(),
            final(self).spec_regs() == (Count16Regs {
                intenset_ovf: false,
                ..old(self).spec_regs()
            }),
    {
        self.tc.regs.intenset_ovf = false;
    }

    /// The source clock frequency this timer was configured with.
    pub fn freq(&self) -> (r: Hertz)
        ensures
            r == self.spec_freq(),
    {
        self.freq
    }

    /// The programmed compare value.
    pub fn cc0(&self) -> (r: u16)
        ensures
            r == self.spec_regs().cc0,
    {
        self.tc.regs.cc0
    }

    /// The programmed prescaler encoding.
    pub fn prescaler_bits(&self) -> (r: u8)
        ensures
            r == self.spec_regs().prescaler,
    {
        self.tc.regs.prescaler
    }

    /// Whether the counter is enabled.
    pub fn is_enabled(&self) -> (r: bool)
        ensures
            r == self.spec_regs().enable,
    {
        self.tc.regs.enable
    }

    /// Raise interrupt flags as the hardware would at period overflow,
    /// error, or compare match.
    pub fn hw_raise_irq(&mut self, ovf: bool, err: bool, mc0: bool, mc1: bool)
        ensures
            final(self).spec_freq() == old(self).spec_freq(),
            final(self).spec_regs() == (Count16Regs {
                if_ovf: if ovf {
                    old(self).spec_regs().if_ovf.spec_write(true, 0)
                } else {
                    old(self).spec_regs().if_ovf
                },
                if_err: if err {
                    old(self).spec_regs().if_err.spec_write(true, 0)
                } else {
                    old(self).spec_regs().if_err
                },
                if_mc0: if mc0 {
                    old(self).spec_regs().if_mc0.spec_write(true, 0)
                } else {
                    old(self).spec_regs().if_mc0
                },
                if_mc1: if mc1 {
                    old(self).spec_regs().if_mc1.spec_write(true, 0)
                } else {
                    old(self).spec_regs().if_mc1
                },
                ..old(self).spec_regs()
            }),
    {
        if ovf {
            self.tc.regs.if_ovf.write(true, 0);
        }
        if err {
            self.tc.regs.if_err.write(true, 0);
        }
        if mc0 {
            self.tc.regs.if_mc0.write(true, 0);
        }
        if mc1 {
            self.tc.regs.if_mc1.write(true, 0);
        }
    }
}

/// TimerCounter4 driven by the TC4 peripheral.
pub type TimerCounter4 = TimerCounter<TC4>;

impl TimerCounter<TC4> {
    /// The source clock frequency, as seen by specifications.
    pub closed spec fn spec_freq(&self) -> Hertz {
        self.freq
    }

    /// The counter's register block, as seen by specifications.
    pub closed spec fn spec_regs(&self) -> Count16Regs {
        self.tc.regs
    }

    /// Configure this timer counter instance. The clock is obtained from
    /// the clock controller and its frequency impacts the resolution and
    /// maximum range of the timeouts that can be passed to `start`. Note
    /// that some hardware timer instances share the same clock generator
    /// and thus will be clocked at the same rate.
    pub fn tc4_(clock: &Tc4Tc5Clock, tc: TC4, mclk: &mut MCLK) -> (r: TimerCounter<TC4>)
        ensures
            *final(mclk) == (MCLK { apbc_tc4: true, ..*old(mclk) }),
            r.spec_freq() == clock.spec_freq(),
            r.spec_regs() == tc.spec_regs().spec_disable_sync(),
    {
        mclk.apbc_tc4 = true;
        let mut tc = tc;
        tc.regs.disable_and_sync();
        TimerCounter { freq: clock.freq(), tc }
    }

    /// Program a periodic timeout: reset the counter, then run it in
    /// match-frequency mode with the divider and compare value that
    /// realise the timeout at this timer's clock rate.
    pub fn start(&mut self, timeout: Nanoseconds)
        requires
            spec_ticks(timeout, old(self).spec_freq().0) / 1024 <= 0xffff,
        ensures
            final(self).spec_freq() == old(self).spec_freq(),
            final(self).spec_regs() == old(self).spec_regs().spec_started(
                spec_prescaler_bits(spec_divider(spec_ticks(timeout, old(self).spec_freq().0))),
                (spec_ticks(timeout, old(self).spec_freq().0) / spec_divider(
                    spec_ticks(timeout, old(self).spec_freq().0),
                ) as int) as u16,
            ),
    {
        let params = TimerParams::new_us(timeout, self.freq.0);
        let divider = params.divider;
        let cycles = params.cycles;

        // Disable the timer while we reconfigure it, then ask it to
        // perform a reset.
        self.tc.regs.disable_and_sync();
        self.tc.regs.reset_and_sync();

        // Count up when the direction bit is zero, periodically
        self.tc.regs.dir_down = false;
        self.tc.regs.oneshot = false;

        // Set the period in match-frequency mode
        self.tc.regs.cc0 = cycles as u16;
        self.tc.regs.wavegen_mfrq = true;

        self.tc.regs.prescaler = if divider == 1 {
            0
        } else if divider == 2 {
            1
        } else if divider == 4 {
            2
        } else if divider == 8 {
            3
        } else if divider == 16 {
            4
        } else if divider == 64 {
            5
        } else if divider == 256 {
            6
        } else {
            7
        };
        self.tc.regs.enable = true;
        self.tc.regs.runstdby = true;
    }

    /// Poll for the period to elapse: when the overflow flag reads as
    /// set, clear it and report success, otherwise report `WouldBlock`.
    pub fn wait(&mut self) -> (r: Result<(), WouldBlock>)
        ensures
            final(self).spec_freq() == old(self).spec_freq(),
            old(self).spec_regs().if_ovf.spec_read_value() ==> r is Ok && final(self).spec_regs()
                == (Count16Regs {
                if_ovf: old(self).spec_regs().if_ovf.spec_read().spec_write(false, 0),
                ..old(self).spec_regs()
            }),
            !old(self).spec_regs().if_ovf.spec_read_value() ==> r == Result::<(), WouldBlock>::Err(
                WouldBlock,
            ) && final(self).spec_regs() == (Count16Regs {
                if_ovf: old(self).spec_regs().if_ovf.spec_read(),
                ..old(self).spec_regs()
            }),
    {
        if self.tc.regs.if_ovf.read() {
            // Writing a one clears the flag
            self.tc.regs.if_ovf.write(false, 0);
            Ok(())
        } else {
            Err(WouldBlock)
        }
    }

    /// Enable the overflow interrupt for this hardware timer. This only
    /// sets the peripheral-level enable; it does not configure the
    /// interrupt controller or define a handler.
    pub fn enable_interrupt(&mut self)
        ensures
            final(self).spec_freq() == old(self).spec_freq(),
            final(self).spec_regs() == (Count16Regs {
                intenset_ovf: true,
                ..old(self).spec_regs()
            }),
    {
        self.tc.regs.intenset_ovf = true;
    }

    /// Disable the overflow interrupt for this hardware timer.
    pub fn disable_interrupt(&mut self)
        ensures
            final(self).spec_freq() == old(self).spec_freq(),
            final(self).spec_regs() == (Count16Regs {
                intenset_ovf: false,
                ..old(self).spec_regs()
            }),
    {
        self.tc.regs.intenset_ovf = false;
    }

    /// The source clock frequency this timer was configured with.
    pub fn freq(&self) -> (r: Hertz)
        ensures
            r == self.spec_freq(),
    {
        self.freq
    }

    /// The programmed compare value.
    pub fn cc0(&self) -> (r: u16)
        ensures
            r == self.spec_regs().cc0,
    {
        self.tc.regs.cc0
    }

    /// The programmed prescaler encoding.
    pub fn prescaler_bits(&self) -> (r: u8)
        ensures
            r == self.spec_regs().prescaler,
    {
        self.tc.regs.prescaler
    }

    /// Whether the counter is enabled.
    pub fn is_enabled(&self) -> (r: bool)
        ensures
            r == self.spec_regs().enable,
    {
        self.tc.regs.enable
    }

    /// Raise interrupt flags as the hardware would at period overflow,
    /// error, or compare match.
    pub fn hw_raise_irq(&mut self, ovf: bool, err: bool, mc0: bool, mc1: bool)
        ensures
            final(self).spec_freq() == old(self).spec_freq(),
            final(self).spec_regs() == (Count16Regs {
                if_ovf: if ovf {
                    old(self).spec_regs().if_ovf.spec_write(true, 0)
                } else {
                    old(self).spec_regs().if_ovf
                },
                if_err: if err {
                    old(self).spec_regs().if_err.spec_write(true, 0)
                } else {
                    old(self).spec_regs().if_err
                },
                if_mc0: if mc0 {
                    old(self).spec_regs().if_mc0.spec_write(true, 0)
                } else {
                    old(self).spec_regs().if_mc0
                },
                if_mc1: if mc1 {
                    old(self).spec_regs().if_mc1.spec_write(true, 0)
                } else {
                    old(self).spec_regs().if_mc1
                },
                ..old(self).spec_regs()
            }),
    {
        if ovf {
            self.tc.regs.if_ovf.write(true, 0);
        }
        if err {
            self.tc.regs.if_err.write(true, 0);
        }
        if mc0 {
            self.tc.regs.if_mc0.write(true, 0);
        }
        if mc1 {
            self.tc.regs.if_mc1.write(true, 0);
        }
    }
}

/// TimerCounter5 driven by the TC5 peripheral.
pub type TimerCounter5 = TimerCounter<TC5>;

impl TimerCounter<TC5> {
    /// The source clock frequency, as seen by specifications.
    pub closed spec fn spec_freq(&self) -> Hertz {
        self.freq
    }

    /// The counter's register block, as seen by specifications.
    pub closed spec fn spec_regs(&self) -> Count16Regs {
        self.tc.regs
    }

    /// Configure this timer counter instance. The clock is obtained from
    /// the clock controller and its frequency impacts the resolution and
    /// maximum range of the timeouts that can be passed to `start`. Note
    /// that some hardware timer instances share the same clock generator
    /// and thus will be clocked at the same rate.
    pub fn tc5_(clock: &Tc4Tc5Clock, tc: TC5, mclk: &mut MCLK) -> (r: TimerCounter<TC5>)
        ensures
            *final(mclk) == (MCLK { apbc_tc5: true, ..*old(mclk) }),
            r.spec_freq() == clock.spec_freq(),
            r.spec_regs() == tc.spec_regs().spec_disable_sync(),
    {
        mclk.apbc_tc5 = true;
        let mut tc = tc;
        tc.regs.disable_and_sync();
        TimerCounter { freq: clock.freq(), tc }
    }

    /// Program a periodic timeout: reset the counter, then run it in
    /// match-frequency mode with the divider and compare value that
    /// realise the timeout at this timer's clock rate.
    pub fn start(&mut self, timeout: Nanoseconds)
        requires
            spec_ticks(timeout, old(self).spec_freq().0) / 1024 <= 0xffff,
        ensures
            final(self).spec_freq() == old(self).spec_freq(),
            final(self).spec_regs() == old(self).spec_regs().spec_started(
                spec_prescaler_bits(spec_divider(spec_ticks(timeout, old(self).spec_freq().0))),
                (spec_ticks(timeout, old(self).spec_freq().0) / spec_divider(
                    spec_ticks(timeout, old(self).spec_freq().0),
                ) as int) as u16,
            ),
    {
        let params = TimerParams::new_us(timeout, self.freq.0);
        let divider = params.divider;
        let cycles = params.cycles;

        // Disable the timer while we reconfigure it, then ask it to
        // perform a reset.
        self.tc.regs.disable_and_sync();
        self.tc.regs.reset_and_sync();

        // Count up when the direction bit is zero, periodically
        self.tc.regs.dir_down = false;
        self.tc.regs.oneshot = false;

        // Set the period in match-frequency mode
        self.tc.regs.cc0 = cycles as u16;
        self.tc.regs.wavegen_mfrq = true;

        self.tc.regs.prescaler = if divider == 1 {
            0
        } else if divider == 2 {
            1
        } else if divider == 4 {
            2
        } else if divider == 8 {
            3
        } else if divider == 16 {
            4
        } else if divider == 64 {
            5
        } else if divider == 256 {
            6
        } else {
            7
        };
        self.tc.regs.enable = true;
        self.tc.regs.runstdby = true;
    }

    /// Poll for the period to elapse: when the overflow flag reads as
    /// set, clear it and report success, otherwise report `WouldBlock`.
    pub fn wait(&mut self) -> (r: Result<(), WouldBlock>)
        ensures
            final(self).spec_freq() == old(self).spec_freq(),
            old(self).spec_regs().if_ovf.spec_read_value() ==> r is Ok && final(self).spec_regs()
                == (Count16Regs {
                if_ovf: old(self).spec_regs().if_ovf.spec_read().spec_write(false, 0),
                ..old(self).spec_regs()
            }),
            !old(self).spec_regs().if_ovf.spec_read_value() ==> r == Result::<(), WouldBlock>::Err(
                WouldBlock,
            ) && final(self).spec_regs() == (Count16Regs {
                if_ovf: old(self).spec_regs().if_ovf.spec_read(),
                ..old(self).spec_regs()
            }),
    {
        if self.tc.regs.if_ovf.read() {
            // Writing a one clears the flag
            self.tc.regs.if_ovf.write(false, 0);
            Ok(())
        } else {
            Err(WouldBlock)
        }
    }

    /// Enable the overflow interrupt for this hardware timer. This only
    /// sets the peripheral-level enable; it does not configure the
    /// interrupt controller or define a handler.
    pub fn enable_interrupt(&mut self)
        ensures
            final(self).spec_freq() == old(self).spec_freq(),
            final(self).spec_regs() == (Count16Regs {
                intenset_ovf: true,
                ..old(self).spec_regs()
            }),
    {
        self.tc.regs.intenset_ovf = true;
    }

    /// Disable the overflow interrupt for this hardware timer.
    pub fn disable_interrupt(&mut self)
        ensures
            final(self).spec_freq() == old(self).spec_freq(),
            final(self).spec_regs() == (Count16Regs {
                intenset_ovf: false,
                ..old(self).spec_regs()
            }),
    {
        self.tc.regs.intenset_ovf = false;
    }

    /// The source clock frequency this timer was configured with.
    pub fn freq(&self) -> (r: Hertz)
        ensures
            r == self.spec_freq(),
    {
        self.freq
    }

    /// The programmed compare value.
    pub fn cc0(&self) -> (r: u16)
        ensures
            r == self.spec_regs().cc0,
    {
        self.tc.regs.cc0
    }

    /// The programmed prescaler encoding.
    pub fn prescaler_bits(&self) -> (r: u8)
        ensures
            r == self.spec_regs().prescaler,
    {
        self.tc.regs.prescaler
    }

    /// Whether the counter is enabled.
    pub fn is_enabled(&self) -> (r: bool)
        ensures
            r == self.spec_regs().enable,
    {
        self.tc.regs.enable
    }

    /// Raise interrupt flags as the hardware would at period overflow,
    /// error, or compare match.
    pub fn hw_raise_irq(&mut self, ovf: bool, err: bool, mc0: bool, mc1: bool)
        ensures
            final(self).spec_freq() == old(self).spec_freq(),
            final(self).spec_regs() == (Count16Regs {
                if_ovf: if ovf {
                    old(self).spec_regs().if_ovf.spec_write(true, 0)
                } else {
                    old(self).spec_regs().if_ovf
                },
                if_err: if err {
                    old(self).spec_regs().if_err.spec_write(true, 0)
                } else {
                    old(self).spec_regs().if_err
                },
                if_mc0: if mc0 {
                    old(self).spec_regs().if_mc0.spec_write(true, 0)
                } else {
                    old(self).spec_regs().if_mc0
                },
                if_mc1: if mc1 {
                    old(self).spec_regs().if_mc1.spec_write(true, 0)
                } else {
                    old(self).spec_regs().if_mc1
                },
                ..old(self).spec_regs()
            }),
    {
        if ovf {
            self.tc.regs.if_ovf.write(true, 0);
        }
        if err {
            self.tc.regs.if_err.write(true, 0);
        }
        if mc0 {
            self.tc.regs.if_mc0.write(true, 0);
        }
        if mc1 {
            self.tc.regs.if_mc1.write(true, 0);
        }
    }
}

impl TimerCounter<TC4> {
    /// Clear all four interrupt flags, without waiting for the writes to
    /// settle.
    pub fn clear_all_irq(&mut self)
        ensures
            final(self).spec_freq() == old(self).spec_freq(),
            final(self).spec_regs() == (Count16Regs {
                if_ovf: old(self).spec_regs().if_ovf.spec_write(false, old(self).spec_regs().sync_lag),
                if_err: old(self).spec_regs().if_err.spec_write(false, old(self).spec_regs().sync_lag),
                if_mc0: old(self).spec_regs().if_mc0.spec_write(false, old(self).spec_regs().sync_lag),
                if_mc1: old(self).spec_regs().if_mc1.spec_write(false, old(self).spec_regs().sync_lag),
                ..old(self).spec_regs()
            }),
    {
        let lag = self.tc.regs.sync_lag;
        self.tc.regs.if_ovf.write(false, lag);
        self.tc.regs.if_err.write(false, lag);
        self.tc.regs.if_mc0.write(false, lag);
        self.tc.regs.if_mc1.write(false, lag);
    }

    /// Clear the overflow interrupt flag and spin until it reads clear.
    pub fn clear_ovf_irq(&mut self)
        ensures
            final(self).spec_freq() == old(self).spec_freq(),
            final(self).spec_regs() == (Count16Regs {
                if_ovf: old(self).spec_regs().if_ovf.spec_write(
                    false,
                    old(self).spec_regs().sync_lag,
                ).spec_wait(false),
                ..old(self).spec_regs()
            }),
    {
        let lag = self.tc.regs.sync_lag;
        self.tc.regs.if_ovf.write(false, lag);
        self.tc.regs.if_ovf.wait_until(false);
    }

    /// Clear the error interrupt flag and spin until it reads clear.
    pub fn clear_err_irq(&mut self)
        ensures
            final(self).spec_freq() == old(self).spec_freq(),
            final(self).spec_regs() == (Count16Regs {
                if_err: old(self).spec_regs().if_err.spec_write(
                    false,
                    old(self).spec_regs().sync_lag,
                ).spec_wait(false),
                ..old(self).spec_regs()
            }),
    {
        let lag = self.tc.regs.sync_lag;
        self.tc.regs.if_err.write(false, lag);
        self.tc.regs.if_err.wait_until(false);
    }

    /// Clear the match or capture channel 0 interrupt flag and spin until it reads clear.
    pub fn clear_mc0_irq(&mut self)
        ensures
            final(self).spec_freq() == old(self).spec_freq(),
            final(self).spec_regs() == (Count16Regs {
                if_mc0: old(self).spec_regs().if_mc0.spec_write(
                    false,
                    old(self).spec_regs().sync_lag,
                ).spec_wait(false),
                ..old(self).spec_regs()
            }),
    {
        let lag = self.tc.regs.sync_lag;
        self.tc.regs.if_mc0.write(false, lag);
        self.tc.regs.if_mc0.wait_until(false);
    }

    /// Clear the match or capture channel 1 interrupt flag and spin until it reads clear.
    pub fn clear_mc1_irq(&mut self)
        ensures
            final(self).spec_freq() == old(self).spec_freq(),
            final(self).spec_regs() == (Count16Regs {
                if_mc1: old(self).spec_regs().if_mc1.spec_write(
                    false,
                    old(self).spec_regs().sync_lag,
                ).spec_wait(false),
                ..old(self).spec_regs()
            }),
    {
        let lag = self.tc.regs.sync_lag;
        self.tc.regs.if_mc1.write(false, lag);
        self.tc.regs.if_mc1.wait_until(false);
    }

    /// Whether the overflow interrupt flag currently reads as set, without
    /// advancing the settling model.
    pub fn is_ovf_int_flag_set(&self) -> (r: bool)
        ensures
            r == self.spec_regs().if_ovf.spec_read_value(),
    {
        self.tc.regs.if_ovf.peek()
    }

    /// Whether the error interrupt flag currently reads as set, without
    /// advancing the settling model.
    pub fn is_err_int_flag_set(&self) -> (r: bool)
        ensures
            r == self.spec_regs().if_err.spec_read_value(),
    {
        self.tc.regs.if_err.peek()
    }

    /// Whether the match or capture channel 0 interrupt flag currently reads as set, without
    /// advancing the settling model.
    pub fn is_mc0_int_flag_set(&self) -> (r: bool)
        ensures
            r == self.spec_regs().if_mc0.spec_read_value(),
    {
        self.tc.regs.if_mc0.peek()
    }

    /// Whether the match or capture channel 1 interrupt flag currently reads as set, without
    /// advancing the settling model.
    pub fn is_mc1_int_flag_set(&self) -> (r: bool)
        ensures
            r == self.spec_regs().if_mc1.spec_read_value(),
    {
        self.tc.regs.if_mc1.peek()
    }

}

} // verus!
