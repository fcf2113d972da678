//! Transfer coordination: binding a busy channel to its buffers for the
//! duration of one transfer, and mediating completion.
//!
//! A [`Transfer`] owns the channel and both buffers for the whole busy
//! period, so the memory the hardware works on cannot be moved, freed or
//! mutated while the transfer is in flight. Completion is observed either
//! by polling ([`Transfer::complete`]) or by waiting ([`Transfer::wait`]);
//! either way the buffers come back exactly as they were handed in, with
//! a `Ready` channel for reuse.

use vstd::prelude::*;

use crate::dmac::channel::Busy;
use crate::dmac::channel::CallbackStatus;
use crate::dmac::channel::Channel;
use crate::dmac::channel::ChannelRegisters;
use crate::dmac::channel::Ready;
use crate::dmac::controller::TriggerAction;
use crate::dmac::controller::TriggerSource;

verus! {

/// One in-flight DMA transfer: a busy channel bound to its source and
/// destination buffers.
pub struct Transfer {
    chan: Channel<Busy>,
    source: Vec<u8>,
    dest: Vec<u8>,
}

impl Transfer {
    /// The busy channel's register port, as seen by specifications.
    pub closed spec fn chan_regs(&self) -> ChannelRegisters {
        self.chan.regs()
    }

    /// The busy channel's id, as seen by specifications.
    pub closed spec fn chan_id(&self) -> u8 {
        self.chan.spec_id()
    }

    /// The bound source buffer, as seen by specifications.
    pub closed spec fn source_view(&self) -> Seq<u8> {
        self.source@
    }

    /// The bound destination buffer, as seen by specifications.
    pub closed spec fn dest_view(&self) -> Seq<u8> {
        self.dest@
    }

    /// Start a transfer on `chan` with the given trigger configuration,
    /// binding the buffers to the channel for the whole busy period.
    pub fn new(
        chan: Channel<Ready>,
        source: Vec<u8>,
        dest: Vec<u8>,
        trig_src: TriggerSource,
        trig_act: TriggerAction,
    ) -> (r: Transfer)
        ensures
            r.chan_id() == chan.spec_id(),
            r.chan_regs() == chan.regs().spec_start(trig_src, trig_act),
            r.source_view() == source@,
            r.dest_view() == dest@,
    {
        let chan = chan.start(trig_src, trig_act);
        Transfer { chan, source, dest }
    }

    /// Non-destructively poll whether the transfer has completed.
    pub fn complete(&mut self) -> (r: bool)
        ensures
            final(self).chan_regs() == (ChannelRegisters {
                enable: old(self).chan_regs().enable.spec_read(),
                ..old(self).chan_regs()
            }),
            r == !old(self).chan_regs().enable.spec_read_value(),
            final(self).chan_id() == old(self).chan_id(),
            final(self).source_view() == old(self).source_view(),
            final(self).dest_view() == old(self).dest_view(),
    {
        self.chan.xfer_complete()
    }

    /// Issue a software trigger to the channel, advancing a transfer whose
    /// trigger source is the disabled sentinel.
    pub fn software_trigger(&mut self)
        ensures
            final(self).chan_regs() == (ChannelRegisters {
                swtrig: true,
                swtrig_writes: crate::port::sat_add(old(self).chan_regs().swtrig_writes, 1),
                ..old(self).chan_regs()
            }),
            final(self).chan_id() == old(self).chan_id(),
            final(self).source_view() == old(self).source_view(),
            final(self).dest_view() == old(self).dest_view(),
    {
        self.chan.software_trigger()
    }

    /// Read and clear the pending interrupt flags in priority order,
    /// reporting how the transfer ended; the decision whether to free or
    /// restart the channel stays with the caller.
    pub fn callback(&mut self) -> (r: CallbackStatus)
        ensures
            r == old(self).chan_regs().spec_callback_status(),
            final(self).chan_regs() == old(self).chan_regs().spec_callback_regs(),
            final(self).chan_id() == old(self).chan_id(),
            final(self).source_view() == old(self).source_view(),
            final(self).dest_view() == old(self).dest_view(),
    {
        self.chan.callback()
    }

    /// Let the hardware finish the in-flight transfer: the
    /// transfer-complete flag is raised and the enable bit clears,
    /// reading as still set for `lag` further polls.
    pub fn hw_complete(&mut self, lag: u8)
        ensures
            final(self).chan_regs() == (ChannelRegisters {
                enable: old(self).chan_regs().enable.spec_write(false, lag),
                if_tcmpl: true,
                ..old(self).chan_regs()
            }),
            final(self).chan_id() == old(self).chan_id(),
            final(self).source_view() == old(self).source_view(),
            final(self).dest_view() == old(self).dest_view(),
    {
        self.chan.hw_complete_transfer(lag)
    }

    /// Raise the given interrupt flags, as the hardware would.
    pub fn hw_raise_interrupts(&mut self, flags: crate::dmac::channel::InterruptFlags)
        ensures
            final(self).chan_regs() == (ChannelRegisters {
                if_terr: old(self).chan_regs().if_terr || flags.spec_terr(),
                if_tcmpl: old(self).chan_regs().if_tcmpl || flags.spec_tcmpl(),
                if_susp: old(self).chan_regs().if_susp || flags.spec_susp(),
                ..old(self).chan_regs()
            }),
            final(self).chan_id() == old(self).chan_id(),
            final(self).source_view() == old(self).source_view(),
            final(self).dest_view() == old(self).dest_view(),
    {
        self.chan.hw_raise_interrupts(flags)
    }

    /// Block until the hardware reports the transfer complete, then free
    /// the channel and give the buffers back.
    ///
    /// Callable once the hardware has cleared the channel-enable bit (the
    /// transfer has ended, however stale the bit still reads); the wait
    /// consumes the remaining settling lag poll by poll.
    pub fn wait(self) -> (r: (Vec<u8>, Vec<u8>, Channel<Ready>))
        requires
            self.chan_regs().enable.value() == false,
        ensures
            r.0@ == self.source_view(),
            r.1@ == self.dest_view(),
            r.2.spec_id() == self.chan_id(),
            r.2.regs() == self.chan_regs().spec_poll_complete().spec_free(),
    {
        let Transfer { mut chan, source, dest } = self;
        chan.poll_until_complete();
        let chan = chan.free();
        (source, dest, chan)
    }

    /// Stop the transfer whether or not it has completed — in-flight data
    /// is abandoned, not flushed — freeing the channel and returning the
    /// buffers.
    pub fn stop(self) -> (r: (Vec<u8>, Vec<u8>, Channel<Ready>))
        ensures
            r.0@ == self.source_view(),
            r.1@ == self.dest_view(),
            r.2.spec_id() == self.chan_id(),
            r.2.regs() == self.chan_regs().spec_free(),
    {
        let Transfer { chan, source, dest } = self;
        let chan = chan.free();
        (source, dest, chan)
    }
}

} // verus!
