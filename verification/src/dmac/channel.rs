//! Abstractions over individual DMA channels.
//!
//! A channel is in one of three statuses, tracked at compile time by a
//! type-state marker: [`Uninitialized`], [`Ready`] or [`Busy`]. Operations
//! that the hardware only supports in a particular status are only offered
//! in that status. Each channel owns its register port exclusively; the
//! port is modelled as plain data (see [`crate::port`]) so that every
//! operation's effect on the registers is stated exactly.

use vstd::prelude::*;

use crate::port::SyncFlag;
use crate::port::sat_add;
use crate::dmac::controller::PriorityLevel;
use crate::dmac::controller::TriggerAction;
use crate::dmac::controller::TriggerSource;
use crate::dmac::controller::BurstLength;
use crate::dmac::controller::FifoThreshold;
use core::marker::PhantomData;

verus! {

//==============================================================================
// Channel status
//==============================================================================

/// Type-state tag for a channel's status.
pub trait Status {}

/// Uninitialized channel.
pub struct Uninitialized;

impl Status for Uninitialized {}

/// Initialized channel, ready to start a transfer.
pub struct Ready;

impl Status for Ready {}

/// Channel with a transfer in flight.
pub struct Busy;

impl Status for Busy {}

//==============================================================================
// Interrupt flags
//==============================================================================

/// Interrupt sources available to a DMA channel: transfer error, transfer
/// complete and transfer suspended, plus five reserved bits kept verbatim.
#[derive(Clone, Copy, Debug)]
pub struct InterruptFlags {
    terr: bool,
    tcmpl: bool,
    susp: bool,
    reserved: u8,
}

impl InterruptFlags {
    #[verifier::type_invariant]
    spec fn type_inv(self) -> bool {
        self.reserved < 32
    }

    /// Transfer-error bit, as seen by specifications.
    pub closed spec fn spec_terr(self) -> bool {
        self.terr
    }

    /// Transfer-complete bit, as seen by specifications.
    pub closed spec fn spec_tcmpl(self) -> bool {
        self.tcmpl
    }

    /// Transfer-suspended bit, as seen by specifications.
    pub closed spec fn spec_susp(self) -> bool {
        self.susp
    }

    /// Reserved upper bits, as seen by specifications.
    pub closed spec fn spec_reserved(self) -> u8 {
        self.reserved
    }

    /// Whether this flag set holds exactly the three condition bits
    /// given, with the reserved bits clear.
    pub open spec fn spec_is(self, terr: bool, tcmpl: bool, susp: bool) -> bool {
        self.spec_terr() == terr && self.spec_tcmpl() == tcmpl && self.spec_susp() == susp
            && self.spec_reserved() == 0
    }

    /// Byte encoding: bit 0 transfer error, bit 1 transfer complete,
    /// bit 2 transfer suspended, bits 3 and up reserved.
    pub open spec fn spec_bits(self) -> u8 {
        ((if self.spec_terr() {
            1int
        } else {
            0int
        }) + (if self.spec_tcmpl() {
            2int
        } else {
            0int
        }) + (if self.spec_susp() {
            4int
        } else {
            0int
        }) + 8 * self.spec_reserved()) as u8
    }

    /// Returns an instance with zero initialized data.
    pub fn new() -> (r: InterruptFlags)
        ensures
            r.spec_is(false, false, false),
    {
        InterruptFlags { terr: false, tcmpl: false, susp: false, reserved: 0 }
    }

    /// Returns the value of terr.
    pub fn terr(&self) -> (r: bool)
        ensures
            r == self.spec_terr(),
    {
        self.terr
    }

    /// Returns the value of tcmpl.
    pub fn tcmpl(&self) -> (r: bool)
        ensures
            r == self.spec_tcmpl(),
    {
        self.tcmpl
    }

    /// Returns the value of susp.
    pub fn susp(&self) -> (r: bool)
        ensures
            r == self.spec_susp(),
    {
        self.susp
    }

    /// Sets the value of terr.
    pub fn set_terr(&mut self, new_val: bool)
        ensures
            final(self).spec_terr() == new_val,
            final(self).spec_tcmpl() == old(self).spec_tcmpl(),
            final(self).spec_susp() == old(self).spec_susp(),
            final(self).spec_reserved() == old(self).spec_reserved(),
    {
        proof {
            use_type_invariant(&*self);
        }
        *self = InterruptFlags { terr: new_val, ..*self };
    }

    /// Sets the value of tcmpl.
    pub fn set_tcmpl(&mut self, new_val: bool)
        ensures
            final(self).spec_tcmpl() == new_val,
            final(self).spec_terr() == old(self).spec_terr(),
            final(self).spec_susp() == old(self).spec_susp(),
            final(self).spec_reserved() == old(self).spec_reserved(),
    {
        proof {
            use_type_invariant(&*self);
        }
        *self = InterruptFlags { tcmpl: new_val, ..*self };
    }

    /// Sets the value of susp.
    pub fn set_susp(&mut self, new_val: bool)
        ensures
            final(self).spec_susp() == new_val,
            final(self).spec_terr() == old(self).spec_terr(),
            final(self).spec_tcmpl() == old(self).spec_tcmpl(),
            final(self).spec_reserved() == old(self).spec_reserved(),
    {
        proof {
            use_type_invariant(&*self);
        }
        *self = InterruptFlags { susp: new_val, ..*self };
    }

    /// Returns a copy of the flag set with terr set to the given value.
    pub fn with_terr(self, new_val: bool) -> (r: InterruptFlags)
        ensures
            r.spec_terr() == new_val,
            r.spec_tcmpl() == self.spec_tcmpl(),
            r.spec_susp() == self.spec_susp(),
            r.spec_reserved() == self.spec_reserved(),
    {
        proof {
            use_type_invariant(&self);
        }
        InterruptFlags { terr: new_val, ..self }
    }

    /// Returns a copy of the flag set with tcmpl set to the given value.
    pub fn with_tcmpl(self, new_val: bool) -> (r: InterruptFlags)
        ensures
            r.spec_tcmpl() == new_val,
            r.spec_terr() == self.spec_terr(),
            r.spec_susp() == self.spec_susp(),
            r.spec_reserved() == self.spec_reserved(),
    {
        proof {
            use_type_invariant(&self);
        }
        InterruptFlags { tcmpl: new_val, ..self }
    }

    /// Returns a copy of the flag set with susp set to the given value.
    pub fn with_susp(self, new_val: bool) -> (r: InterruptFlags)
        ensures
            r.spec_susp() == new_val,
            r.spec_terr() == self.spec_terr(),
            r.spec_tcmpl() == self.spec_tcmpl(),
            r.spec_reserved() == self.spec_reserved(),
    {
        proof {
            use_type_invariant(&self);
        }
        InterruptFlags { susp: new_val, ..self }
    }

    /// Returns the underlying byte.
    pub fn into_bytes(self) -> (r: [u8; 1])
        ensures
            r@[0] == self.spec_bits(),
    {
        proof {
            use_type_invariant(&self);
        }
        let low: u8 = (if self.terr {
            1u8
        } else {
            0u8
        }) + (if self.tcmpl {
            2u8
        } else {
            0u8
        }) + (if self.susp {
            4u8
        } else {
            0u8
        });
        [low + 8 * self.reserved]
    }

    /// Converts the given byte directly into a flag set.
    pub fn from_bytes(bytes: [u8; 1]) -> (r: InterruptFlags)
        ensures
            r.spec_terr() == (bytes@[0] % 2 == 1),
            r.spec_tcmpl() == (bytes@[0] / 2 % 2 == 1),
            r.spec_susp() == (bytes@[0] / 4 % 2 == 1),
            r.spec_reserved() == bytes@[0] / 8,
            r.spec_bits() == bytes@[0],
    {
        let b = bytes[0];
        let r = InterruptFlags {
            terr: b % 2 == 1,
            tcmpl: b / 2 % 2 == 1,
            susp: b / 4 % 2 == 1,
            reserved: b / 8,
        };
        proof {
            lemma_u8_digits(b);
        }
        r
    }
}

/// Any byte is the sum of its three low bits and eight times its upper
/// part, which is what ties the flag-set view to its byte encoding.
proof fn lemma_u8_digits(b: u8)
    by (bit_vector)
    ensures
        b == b % 2 + 2 * (b / 2 % 2) + 4 * (b / 4 % 2) + 8 * (b / 8),
{
}

//==============================================================================
// Callback status
//==============================================================================

/// Status of a transfer callback.
#[derive(Clone, Copy, PartialEq, Eq, Structural, Debug)]
pub enum CallbackStatus {
    /// Transfer complete.
    TransferComplete,
    /// Transfer error.
    TransferError,
    /// Transfer suspended.
    TransferSuspended,
}

//==============================================================================
// Channel register port
//==============================================================================

/// The register port of a single DMA channel, modelled as plain data.
///
/// `swrst` and `enable` are status bits with settling delay; the remaining
/// control fields take effect immediately. `sync_lag` is the channel's
/// settling delay parameter: the number of stale reads that a software
/// reset or a disable request produces before the hardware confirms it.
#[derive(Clone, Copy, PartialEq, Eq, Structural, Debug)]
pub struct ChannelRegisters {
    /// Software-reset bit; reads as set while the reset is in progress.
    pub swrst: SyncFlag,
    /// Channel-enable bit; the hardware clears it when a transfer ends.
    pub enable: SyncFlag,
    /// Trigger source selection.
    pub trigsrc: u8,
    /// Trigger action selection.
    pub trigact: u8,
    /// Burst length in beats, minus one.
    pub burstlen: u8,
    /// FIFO threshold selection.
    pub threshold: u8,
    /// Channel priority level.
    pub prilvl: u8,
    /// Interrupt enable: transfer error.
    pub ie_terr: bool,
    /// Interrupt enable: transfer complete.
    pub ie_tcmpl: bool,
    /// Interrupt enable: transfer suspended.
    pub ie_susp: bool,
    /// Interrupt flag: transfer error.
    pub if_terr: bool,
    /// Interrupt flag: transfer complete.
    pub if_tcmpl: bool,
    /// Interrupt flag: transfer suspended.
    pub if_susp: bool,
    /// Software-trigger bit for this channel.
    pub swtrig: bool,
    /// How many times the software trigger has been asserted (capture).
    pub swtrig_writes: u64,
    /// Settling delay the hardware exhibits on this channel.
    pub sync_lag: u8,
}

impl ChannelRegisters {
    /// Register contents at power-up.
    pub open spec fn spec_startup() -> ChannelRegisters {
        ChannelRegisters {
            swrst: SyncFlag::spec_new(false),
            enable: SyncFlag::spec_new(false),
            trigsrc: 0,
            trigact: 0,
            burstlen: 0,
            threshold: 0,
            prilvl: 0,
            ie_terr: false,
            ie_tcmpl: false,
            ie_susp: false,
            if_terr: false,
            if_tcmpl: false,
            if_susp: false,
            swtrig: false,
            swtrig_writes: 0,
            sync_lag: 0,
        }
    }

    pub fn startup() -> (r: ChannelRegisters)
        ensures
            r == Self::spec_startup(),
    {
        ChannelRegisters {
            swrst: SyncFlag::new(false),
            enable: SyncFlag::new(false),
            trigsrc: 0,
            trigact: 0,
            burstlen: 0,
            threshold: 0,
            prilvl: 0,
            ie_terr: false,
            ie_tcmpl: false,
            ie_susp: false,
            if_terr: false,
            if_tcmpl: false,
            if_susp: false,
            swtrig: false,
            swtrig_writes: 0,
            sync_lag: 0,
        }
    }

    /// Register contents after a software reset of the channel.
    ///
    /// All control and flag state returns to its startup value; the
    /// priority level is kept, as is the settling-delay parameter and the
    /// capture counters. The reset itself costs one write of the reset bit
    /// and `sync_lag + 1` polls of it.
    pub open spec fn spec_reset(self) -> ChannelRegisters {
        ChannelRegisters {
            swrst: SyncFlag {
                observed: false,
                target: false,
                lag: 0,
                reads: sat_add(self.swrst.reads, (self.sync_lag + 1) as nat),
                writes: sat_add(self.swrst.writes, 1),
            },
            enable: SyncFlag {
                observed: false,
                target: false,
                lag: 0,
                reads: self.enable.reads,
                writes: self.enable.writes,
            },
            trigsrc: 0,
            trigact: 0,
            burstlen: 0,
            threshold: 0,
            prilvl: self.prilvl,
            ie_terr: false,
            ie_tcmpl: false,
            ie_susp: false,
            if_terr: false,
            if_tcmpl: false,
            if_susp: false,
            swtrig: false,
            swtrig_writes: self.swtrig_writes,
            sync_lag: self.sync_lag,
        }
    }

    /// Register contents after initialisation with the given priority.
    pub open spec fn spec_init(self, lvl: PriorityLevel) -> ChannelRegisters {
        ChannelRegisters { prilvl: lvl.spec_bits(), ..self.spec_reset() }
    }
}

/// Architectural equality of two channel register states: the settled
/// register contents agree, the settling model and capture counters aside.
pub open spec fn arch_eq(a: ChannelRegisters, b: ChannelRegisters) -> bool {
    &&& a.swrst.value() == b.swrst.value()
    &&& a.enable.value() == b.enable.value()
    &&& a.trigsrc == b.trigsrc
    &&& a.trigact == b.trigact
    &&& a.burstlen == b.burstlen
    &&& a.threshold == b.threshold
    &&& a.prilvl == b.prilvl
    &&& a.ie_terr == b.ie_terr
    &&& a.ie_tcmpl == b.ie_tcmpl
    &&& a.ie_susp == b.ie_susp
    &&& a.if_terr == b.if_terr
    &&& a.if_tcmpl == b.if_tcmpl
    &&& a.if_susp == b.if_susp
    &&& a.swtrig == b.swtrig
}

//==============================================================================
// Channel
//==============================================================================

/// A DMA channel in status `S`, owning its register port exclusively.
pub struct Channel<S: Status> {
    id: u8,
    port: ChannelRegisters,
    _status: PhantomData<S>,
}

pub(crate) fn new_chan(id: u8, regs: ChannelRegisters) -> (r: Channel<Uninitialized>)
    ensures
        r.spec_id() == id,
        r.regs() == regs,
{
    Channel { id, port: regs, _status: PhantomData }
}

/// These methods may be used on any DMA channel in any status.
impl<S: Status> Channel<S> {
    /// The channel's index within the controller.
    pub closed spec fn spec_id(&self) -> u8 {
        self.id
    }

    /// The channel's register port, as seen by specifications.
    pub closed spec fn regs(&self) -> ChannelRegisters {
        self.port
    }

    /// The channel's index within the controller.
    pub fn id(&self) -> (r: u8)
        ensures
            r == self.spec_id(),
    {
        self.id
    }

    /// Configure the DMA channel so that it is ready to be used by a
    /// transfer: software-reset the channel, then program the priority
    /// level.
    ///
    /// # Return
    ///
    /// A `Channel` with a `Ready` status.
    pub fn init(self, lvl: PriorityLevel) -> (r: Channel<Ready>)
        ensures
            r.spec_id() == self.spec_id(),
            r.regs() == self.regs().spec_init(lvl),
    {
        let mut this = self;

        // Software reset the channel for good measure
        this._reset_private();

        // Setup priority level
        this.port.prilvl = lvl.bits();

        Channel { id: this.id, port: this.port, _status: PhantomData }
    }

    /// Selectively enable interrupts: each bit set in `flags` sets the
    /// matching interrupt-enable bit, the others are left alone.
    pub fn enable_interrupts(&mut self, flags: InterruptFlags)
        ensures
            final(self).regs() == (ChannelRegisters {
                ie_terr: old(self).regs().ie_terr || flags.spec_terr(),
                ie_tcmpl: old(self).regs().ie_tcmpl || flags.spec_tcmpl(),
                ie_susp: old(self).regs().ie_susp || flags.spec_susp(),
                ..old(self).regs()
            }),
            final(self).spec_id() == old(self).spec_id(),
    {
        if flags.terr() {
            self.port.ie_terr = true;
        }
        if flags.tcmpl() {
            self.port.ie_tcmpl = true;
        }
        if flags.susp() {
            self.port.ie_susp = true;
        }
    }

    /// Selectively disable interrupts: each bit set in `flags` clears the
    /// matching interrupt-enable bit, the others are left alone.
    pub fn disable_interrupts(&mut self, flags: InterruptFlags)
        ensures
            final(self).regs() == (ChannelRegisters {
                ie_terr: old(self).regs().ie_terr && !flags.spec_terr(),
                ie_tcmpl: old(self).regs().ie_tcmpl && !flags.spec_tcmpl(),
                ie_susp: old(self).regs().ie_susp && !flags.spec_susp(),
                ..old(self).regs()
            }),
            final(self).spec_id() == old(self).spec_id(),
    {
        if flags.terr() {
            self.port.ie_terr = false;
        }
        if flags.tcmpl() {
            self.port.ie_tcmpl = false;
        }
        if flags.susp() {
            self.port.ie_susp = false;
        }
    }

    /// Check the specified `flags`, clear then return any that were set.
    ///
    /// The returned set is exactly the requested flags that were pending;
    /// exactly those are cleared, and pending flags that were not requested
    /// are left untouched. The read and the clear are one atomic step of
    /// the port.
    pub fn check_and_clear_interrupts(&mut self, flags: InterruptFlags) -> (cleared:
        InterruptFlags)
        ensures
            cleared.spec_is(
                old(self).regs().if_terr && flags.spec_terr(),
                old(self).regs().if_tcmpl && flags.spec_tcmpl(),
                old(self).regs().if_susp && flags.spec_susp(),
            ),
            final(self).regs() == (ChannelRegisters {
                if_terr: old(self).regs().if_terr && !flags.spec_terr(),
                if_tcmpl: old(self).regs().if_tcmpl && !flags.spec_tcmpl(),
                if_susp: old(self).regs().if_susp && !flags.spec_susp(),
                ..old(self).regs()
            }),
            final(self).spec_id() == old(self).spec_id(),
    {
        let hit_terr = self.port.if_terr && flags.terr();
        let hit_tcmpl = self.port.if_tcmpl && flags.tcmpl();
        let hit_susp = self.port.if_susp && flags.susp();
        if hit_terr {
            self.port.if_terr = false;
        }
        if hit_tcmpl {
            self.port.if_tcmpl = false;
        }
        if hit_susp {
            self.port.if_susp = false;
        }
        InterruptFlags::new().with_terr(hit_terr).with_tcmpl(hit_tcmpl).with_susp(hit_susp)
    }

    /// The trigger source currently programmed into the channel.
    pub fn interrupt_trigger_source(&mut self) -> (r: usize)
        ensures
            r == old(self).regs().trigsrc as usize,
            *final(self) == *old(self),
    {
        self.port.trigsrc as usize
    }

    /// Software-reset the channel and spin until the hardware confirms it.
    #[verifier::loop_isolation(false)]
    fn _reset_private(&mut self)
        ensures
            final(self).regs() == old(self).regs().spec_reset(),
            final(self).spec_id() == old(self).spec_id(),
    {
        // Reset the channel to its startup state and wait for reset to
        // complete
        let lag = self.port.sync_lag;
        let prilvl = self.port.prilvl;
        let enable_reads = self.port.enable.reads;
        let enable_writes = self.port.enable.writes;
        let mut swrst = self.port.swrst;
        swrst.pulse(lag);
        swrst.wait_until(false);
        let mut regs = ChannelRegisters::startup();
        regs.swrst = swrst;
        regs.enable.reads = enable_reads;
        regs.enable.writes = enable_writes;
        regs.prilvl = prilvl;
        regs.swtrig_writes = self.port.swtrig_writes;
        regs.sync_lag = lag;
        self.port = regs;
    }

    /// Assert the channel's software-trigger bit.
    fn _trigger_private(&mut self)
        ensures
            final(self).regs() == (ChannelRegisters {
                swtrig: true,
                swtrig_writes: sat_add(old(self).regs().swtrig_writes, 1),
                ..old(self).regs()
            }),
            final(self).spec_id() == old(self).spec_id(),
    {
        self.port.swtrig = true;
        if self.port.swtrig_writes < u64::MAX {
            self.port.swtrig_writes = self.port.swtrig_writes + 1;
        }
    }

    //--------------------------------------------------------------------------
    // Hardware-side model hooks and observers
    //
    // Real hardware raises flags and clears the enable bit on its own; a
    // host-side harness plays that part through these methods. The
    // observers expose the captured register traffic without advancing the
    // settling model.
    //--------------------------------------------------------------------------

    /// Set the channel's settling-delay parameter: how many stale reads a
    /// software reset or a disable request produces before it is confirmed.
    pub fn hw_set_sync_lag(&mut self, lag: u8)
        ensures
            final(self).regs() == (ChannelRegisters { sync_lag: lag, ..old(self).regs() }),
            final(self).spec_id() == old(self).spec_id(),
    {
        self.port.sync_lag = lag;
    }

    /// Raise the given interrupt flags, as the hardware would.
    pub fn hw_raise_interrupts(&mut self, flags: InterruptFlags)
        ensures
            final(self).regs() == (ChannelRegisters {
                if_terr: old(self).regs().if_terr || flags.spec_terr(),
                if_tcmpl: old(self).regs().if_tcmpl || flags.spec_tcmpl(),
                if_susp: old(self).regs().if_susp || flags.spec_susp(),
                ..old(self).regs()
            }),
            final(self).spec_id() == old(self).spec_id(),
    {
        if flags.terr() {
            self.port.if_terr = true;
        }
        if flags.tcmpl() {
            self.port.if_tcmpl = true;
        }
        if flags.susp() {
            self.port.if_susp = true;
        }
    }

    /// Let the hardware finish the in-flight transfer: the transfer-complete
    /// flag is raised and the enable bit clears, reading as still set for
    /// `lag` further polls.
    pub fn hw_complete_transfer(&mut self, lag: u8)
        ensures
            final(self).regs() == (ChannelRegisters {
                enable: old(self).regs().enable.spec_write(false, lag),
                if_tcmpl: true,
                ..old(self).regs()
            }),
            final(self).spec_id() == old(self).spec_id(),
    {
        self.port.enable.write(false, lag);
        self.port.if_tcmpl = true;
    }

    /// Settled value of the channel-enable bit.
    pub fn enable_bit(&self) -> (r: bool)
        ensures
            r == self.regs().enable.value(),
    {
        self.port.enable.target
    }

    /// How many times the enable bit has been read.
    pub fn enable_reads(&self) -> (r: u64)
        ensures
            r == self.regs().enable.reads,
    {
        self.port.enable.reads
    }

    /// How many times the enable bit has been written.
    pub fn enable_writes(&self) -> (r: u64)
        ensures
            r == self.regs().enable.writes,
    {
        self.port.enable.writes
    }

    /// Value of the software-trigger bit.
    pub fn swtrig_bit(&self) -> (r: bool)
        ensures
            r == self.regs().swtrig,
    {
        self.port.swtrig
    }

    /// How many times the software trigger has been asserted.
    pub fn swtrig_count(&self) -> (r: u64)
        ensures
            r == self.regs().swtrig_writes,
    {
        self.port.swtrig_writes
    }

    /// The priority level bits currently programmed.
    pub fn priority_bits(&self) -> (r: u8)
        ensures
            r == self.regs().prilvl,
    {
        self.port.prilvl
    }

    /// The interrupt-enable bits currently set.
    pub fn int_enable_flags(&self) -> (r: InterruptFlags)
        ensures
            r.spec_is(self.regs().ie_terr, self.regs().ie_tcmpl, self.regs().ie_susp),
    {
        InterruptFlags::new().with_terr(self.port.ie_terr).with_tcmpl(self.port.ie_tcmpl).with_susp(
            self.port.ie_susp,
        )
    }

    /// The interrupt flags currently pending, without clearing anything.
    pub fn pending_flags(&self) -> (r: InterruptFlags)
        ensures
            r.spec_is(self.regs().if_terr, self.regs().if_tcmpl, self.regs().if_susp),
    {
        InterruptFlags::new().with_terr(self.port.if_terr).with_tcmpl(self.port.if_tcmpl).with_susp(
            self.port.if_susp,
        )
    }
}

//==============================================================================
// Ready-only operations
//==============================================================================

impl ChannelRegisters {
    /// Register contents after a transfer is started with the given
    /// trigger source and action: the trigger configuration is programmed,
    /// the enable bit is set, and if the trigger source is the disabled
    /// sentinel the transfer is kicked off by one software trigger.
    pub open spec fn spec_start(self, src: TriggerSource, act: TriggerAction) -> ChannelRegisters {
        ChannelRegisters {
            trigsrc: src.spec_bits(),
            trigact: act.spec_bits(),
            enable: self.enable.spec_write(true, 0),
            swtrig: self.swtrig || src == TriggerSource::DISABLE,
            swtrig_writes: if src == TriggerSource::DISABLE {
                sat_add(self.swtrig_writes, 1)
            } else {
                self.swtrig_writes
            },
            ..self
        }
    }
}

/// These methods may only be used on a `Ready` DMA channel.
impl Channel<Ready> {
    /// Issue a software reset to the channel. This will return the channel
    /// to its startup state.
    pub fn reset(self) -> (r: Channel<Uninitialized>)
        ensures
            r.spec_id() == self.spec_id(),
            r.regs() == self.regs().spec_reset(),
    {
        let mut this = self;
        this._reset_private();

        Channel { id: this.id, port: this.port, _status: PhantomData }
    }

    /// Set the FIFO threshold length. The channel will wait until it has
    /// received the selected number of Beats before triggering the Burst
    /// transfer, reducing the DMA transfer latency.
    pub fn fifo_threshold(&mut self, threshold: FifoThreshold)
        ensures
            final(self).regs() == (ChannelRegisters {
                threshold: threshold.spec_bits(),
                ..old(self).regs()
            }),
            final(self).spec_id() == old(self).spec_id(),
    {
        self.port.threshold = threshold.bits();
    }

    /// Set burst length for the channel, in number of beats. A burst
    /// transfer is an atomic, uninterruptible operation.
    pub fn burst_length(&mut self, burst_length: BurstLength)
        ensures
            final(self).regs() == (ChannelRegisters {
                burstlen: burst_length.spec_bits(),
                ..old(self).regs()
            }),
            final(self).spec_id() == old(self).spec_id(),
    {
        self.port.burstlen = burst_length.bits();
    }

    /// Start a transfer on the channel using the specified trigger source.
    ///
    /// If the trigger source is the disabled sentinel, the transfer is
    /// triggered once in software, since no peripheral event will ever
    /// advance it.
    ///
    /// # Return
    ///
    /// A `Channel` with a `Busy` status.
    pub fn start(self, trig_src: TriggerSource, trig_act: TriggerAction) -> (r: Channel<Busy>)
        ensures
            r.spec_id() == self.spec_id(),
            r.regs() == self.regs().spec_start(trig_src, trig_act),
    {
        let mut this = self;

        // Configure the trigger source and trigger action
        this.port.trigsrc = trig_src.bits();
        this.port.trigact = trig_act.bits();

        // Start channel
        this.port.enable.write(true, 0);

        // If trigger source is DISABLE, manually trigger transfer
        if trig_src == TriggerSource::DISABLE {
            this._trigger_private();
        }

        Channel { id: this.id, port: this.port, _status: PhantomData }
    }
}

//==============================================================================
// Busy-only operations
//==============================================================================

impl ChannelRegisters {
    /// Register contents after polling the enable bit until it reads clear.
    pub open spec fn spec_poll_complete(self) -> ChannelRegisters {
        ChannelRegisters { enable: self.enable.spec_wait(false), ..self }
    }

    /// Register contents after the channel is freed: the enable bit is
    /// cleared and then polled until the hardware confirms the channel
    /// stopped.
    pub open spec fn spec_free(self) -> ChannelRegisters {
        ChannelRegisters {
            enable: self.enable.spec_write(false, self.sync_lag).spec_wait(false),
            ..self
        }
    }

    /// The status that decoding the pending interrupt flags reports:
    /// transfer complete takes priority over transfer error, which takes
    /// priority over suspension; no flag at all is reported as an error.
    pub open spec fn spec_callback_status(self) -> CallbackStatus {
        if self.if_tcmpl {
            CallbackStatus::TransferComplete
        } else if self.if_terr {
            CallbackStatus::TransferError
        } else if self.if_susp {
            CallbackStatus::TransferSuspended
        } else {
            CallbackStatus::TransferError
        }
    }

    /// Register contents after that decoding: exactly the reported flag is
    /// cleared; on a spurious callback nothing changes.
    pub open spec fn spec_callback_regs(self) -> ChannelRegisters {
        if self.if_tcmpl {
            ChannelRegisters { if_tcmpl: false, ..self }
        } else if self.if_terr {
            ChannelRegisters { if_terr: false, ..self }
        } else if self.if_susp {
            ChannelRegisters { if_susp: false, ..self }
        } else {
            self
        }
    }
}

/// These methods may only be used on a `Busy` DMA channel.
impl Channel<Busy> {
    /// Issue a software trigger to the channel.
    pub fn software_trigger(&mut self)
        ensures
            final(self).regs() == (ChannelRegisters {
                swtrig: true,
                swtrig_writes: sat_add(old(self).regs().swtrig_writes, 1),
                ..old(self).regs()
            }),
            final(self).spec_id() == old(self).spec_id(),
    {
        self._trigger_private();
    }

    /// Returns whether or not the transfer is complete: a non-destructive
    /// read of the enable bit, which the hardware clears by itself when
    /// the transfer finishes.
    pub fn xfer_complete(&mut self) -> (r: bool)
        ensures
            final(self).regs() == (ChannelRegisters {
                enable: old(self).regs().enable.spec_read(),
                ..old(self).regs()
            }),
            r == !old(self).regs().enable.spec_read_value(),
            final(self).spec_id() == old(self).spec_id(),
    {
        !self.port.enable.read()
    }

    /// Poll the enable bit until it reads clear.
    ///
    /// Only callable once the hardware has been told to stop the channel
    /// (the enable bit is settling towards clear); each poll consumes one
    /// unit of the settling lag.
    pub fn poll_until_complete(&mut self)
        requires
            old(self).regs().enable.value() == false,
        ensures
            final(self).regs() == old(self).regs().spec_poll_complete(),
            final(self).spec_id() == old(self).spec_id(),
    {
        self.port.enable.wait_until(false);
    }

    /// Stop the transfer on this channel whether or not it has completed:
    /// clear the enable bit, then poll until the hardware confirms the
    /// channel stopped.
    ///
    /// # Return
    ///
    /// A `Channel` with a `Ready` status, ready to be reused by a new
    /// transfer.
    pub fn free(self) -> (r: Channel<Ready>)
        ensures
            r.spec_id() == self.spec_id(),
            r.regs() == self.regs().spec_free(),
    {
        let mut this = self;
        let lag = this.port.sync_lag;
        this.port.enable.write(false, lag);
        this.port.enable.wait_until(false);
        Channel { id: this.id, port: this.port, _status: PhantomData }
    }

    /// Read and clear the pending interrupt flags in priority order and
    /// report the outcome: complete before error before suspended, and a
    /// spurious callback with no flag pending is conservatively reported
    /// as a transfer error.
    pub fn callback(&mut self) -> (r: CallbackStatus)
        ensures
            r == old(self).regs().spec_callback_status(),
            final(self).regs() == old(self).regs().spec_callback_regs(),
            final(self).spec_id() == old(self).spec_id(),
    {
        // Transfer complete
        if self.port.if_tcmpl {
            self.port.if_tcmpl = false;
            return CallbackStatus::TransferComplete;
        }
        // Transfer error
        if self.port.if_terr {
            self.port.if_terr = false;
            return CallbackStatus::TransferError;
        }
        // Channel suspended
        if self.port.if_susp {
            self.port.if_susp = false;
            return CallbackStatus::TransferSuspended;
        }
        // Default to error if for some reason there was an interrupt
        // raised with no flag pending
        CallbackStatus::TransferError
    }

    /// Restart the transfer using the previously-configured trigger source
    /// and action, e.g. after handling a suspension.
    pub fn restart(&mut self)
        ensures
            final(self).regs() == (ChannelRegisters {
                enable: old(self).regs().enable.spec_write(true, 0),
                ..old(self).regs()
            }),
            final(self).spec_id() == old(self).spec_id(),
    {
        self.port.enable.write(true, 0);
    }
}

impl From<Channel<Ready>> for Channel<Uninitialized> {
    fn from(item: Channel<Ready>) -> Self {
        Channel { id: item.id, port: item.port, _status: PhantomData }
    }
}

impl vstd::std_specs::convert::FromSpecImpl<Channel<Ready>> for Channel<Uninitialized> {
    closed spec fn obeys_from_spec() -> bool {
        true
    }

    closed spec fn from_spec(t: Channel<Ready>) -> Self {
        Channel { id: t.id, port: t.port, _status: PhantomData }
    }
}

//==============================================================================
// Laws of the channel state machine
//==============================================================================

/// Resetting a channel immediately after initialising it leaves the
/// architectural register contents exactly as initialisation left them,
/// whatever priority level was chosen: a reset right after `init` changes
/// nothing that `init` established.
pub proof fn lemma_reset_after_init(r: ChannelRegisters, lvl: PriorityLevel)
    ensures
        arch_eq(r.spec_init(lvl).spec_reset(), r.spec_init(lvl)),
{
}

/// Starting a transfer asserts the software trigger exactly once when the
/// trigger source is the disabled sentinel, and not at all otherwise.
pub proof fn lemma_start_software_trigger(
    r: ChannelRegisters,
    src: TriggerSource,
    act: TriggerAction,
)
    ensures
        src == TriggerSource::DISABLE ==> r.spec_start(src, act).swtrig_writes == sat_add(
            r.swtrig_writes,
            1,
        ),
        src != TriggerSource::DISABLE ==> r.spec_start(src, act).swtrig_writes == r.swtrig_writes
            && r.spec_start(src, act).swtrig == r.swtrig,
{
}

/// Freeing a busy channel polls the enable bit at least once per unit of
/// settling lag pending on it, and one further time to observe it clear;
/// beyond the one disable request it writes nothing.
pub proof fn lemma_free_polls_until_stopped(r: ChannelRegisters)
    requires
        r.enable.reads + r.sync_lag + 1 <= u64::MAX,
        r.enable.observed,
    ensures
        r.spec_free().enable.value() == false,
        r.spec_free().enable.reads >= r.enable.reads + r.sync_lag,
        r.spec_free().enable.writes == sat_add(r.enable.writes, 1),
{
}

/// Decoding priority: with every flag pending at once, the callback
/// reports completion and clears only the complete flag; with nothing
/// pending it reports an error and clears nothing.
pub proof fn lemma_callback_priority(r: ChannelRegisters)
    ensures
        r.if_tcmpl ==> r.spec_callback_status() == CallbackStatus::TransferComplete
            && r.spec_callback_regs() == (ChannelRegisters { if_tcmpl: false, ..r }),
        !r.if_tcmpl && !r.if_terr && !r.if_susp ==> r.spec_callback_status()
            == CallbackStatus::TransferError && r.spec_callback_regs() == r,
{
}

} // verus!
