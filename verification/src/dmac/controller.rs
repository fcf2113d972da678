//! The DMA controller: trigger and priority configuration types, and the
//! split of the controller into its independent channels.

use vstd::prelude::*;

use crate::dmac::channel::Channel;
use crate::dmac::channel::ChannelRegisters;
use crate::dmac::channel::Uninitialized;
use crate::dmac::channel::new_chan;

verus! {

/// Priority of a DMA channel relative to the other channels.
#[allow(non_camel_case_types)]
#[derive(Clone, Copy, PartialEq, Eq, Structural, Debug)]
pub enum PriorityLevel {
    /// Lowest priority.
    LVL0,
    LVL1,
    LVL2,
    LVL3,
}

impl PriorityLevel {
    /// Encoding of the level in the channel's priority register.
    pub open spec fn spec_bits(self) -> u8 {
        match self {
            PriorityLevel::LVL0 => 0,
            PriorityLevel::LVL1 => 1,
            PriorityLevel::LVL2 => 2,
            PriorityLevel::LVL3 => 3,
        }
    }

    pub fn bits(self) -> (r: u8)
        ensures
            r == self.spec_bits(),
    {
        match self {
            PriorityLevel::LVL0 => 0,
            PriorityLevel::LVL1 => 1,
            PriorityLevel::LVL2 => 2,
            PriorityLevel::LVL3 => 3,
        }
    }
}

/// The event that starts or advances a channel's transfer. `DISABLE` is
/// the sentinel for no hardware trigger at all: a transfer started with it
/// must be advanced by software triggers.
#[allow(non_camel_case_types)]
#[derive(Clone, Copy, PartialEq, Eq, Structural, Debug)]
pub enum TriggerSource {
    /// No hardware trigger; the transfer is kicked off in software.
    DISABLE,
    /// Timestamp capture from the real-time clock.
    RTC_TIMESTAMP,
    /// Serial engine 0 receive ready.
    SERCOM0_RX,
    /// Serial engine 0 transmit ready.
    SERCOM0_TX,
    /// Serial engine 1 receive ready.
    SERCOM1_RX,
    /// Serial engine 1 transmit ready.
    SERCOM1_TX,
    /// Timer-counter 0 overflow.
    TC0_OVF,
    /// Timer-counter 1 overflow.
    TC1_OVF,
    /// Analog-to-digital converter 0 result ready.
    ADC0_RESRDY,
    /// Analog-to-digital converter 1 result ready.
    ADC1_RESRDY,
}

impl TriggerSource {
    /// Encoding of the source in the channel's trigger-source field.
    pub open spec fn spec_bits(self) -> u8 {
        match self {
            TriggerSource::DISABLE => 0,
            TriggerSource::RTC_TIMESTAMP => 1,
            TriggerSource::SERCOM0_RX => 4,
            TriggerSource::SERCOM0_TX => 5,
            TriggerSource::SERCOM1_RX => 6,
            TriggerSource::SERCOM1_TX => 7,
            TriggerSource::TC0_OVF => 44,
            TriggerSource::TC1_OVF => 45,
            TriggerSource::ADC0_RESRDY => 68,
            TriggerSource::ADC1_RESRDY => 69,
        }
    }

    pub fn bits(self) -> (r: u8)
        ensures
            r == self.spec_bits(),
    {
        match self {
            TriggerSource::DISABLE => 0,
            TriggerSource::RTC_TIMESTAMP => 1,
            TriggerSource::SERCOM0_RX => 4,
            TriggerSource::SERCOM0_TX => 5,
            TriggerSource::SERCOM1_RX => 6,
            TriggerSource::SERCOM1_TX => 7,
            TriggerSource::TC0_OVF => 44,
            TriggerSource::TC1_OVF => 45,
            TriggerSource::ADC0_RESRDY => 68,
            TriggerSource::ADC1_RESRDY => 69,
        }
    }
}

/// How much data moves on each trigger event.
#[derive(Clone, Copy, PartialEq, Eq, Structural, Debug)]
pub enum TriggerAction {
    /// One block per trigger.
    BLOCK,
    /// One burst per trigger.
    BURST,
    /// The whole transaction on one trigger.
    TRANSACTION,
}

impl TriggerAction {
    /// Encoding of the action in the channel's trigger-action field.
    pub open spec fn spec_bits(self) -> u8 {
        match self {
            TriggerAction::BLOCK => 0,
            TriggerAction::BURST => 2,
            TriggerAction::TRANSACTION => 3,
        }
    }

    pub fn bits(self) -> (r: u8)
        ensures
            r == self.spec_bits(),
    {
        match self {
            TriggerAction::BLOCK => 0,
            TriggerAction::BURST => 2,
            TriggerAction::TRANSACTION => 3,
        }
    }
}

/// Number of beats an uninterruptible burst moves.
#[allow(non_camel_case_types)]
#[derive(Clone, Copy, PartialEq, Eq, Structural, Debug)]
pub enum BurstLength {
    _1BEAT,
    _2BEATS,
    _3BEATS,
    _4BEATS,
    _5BEATS,
    _6BEATS,
    _7BEATS,
    _8BEATS,
    _9BEATS,
    _10BEATS,
    _11BEATS,
    _12BEATS,
    _13BEATS,
    _14BEATS,
    _15BEATS,
    _16BEATS,
}

impl BurstLength {
    /// Encoding of the burst length in the channel's control register:
    /// the number of beats minus one.
    pub open spec fn spec_bits(self) -> u8 {
        match self {
            BurstLength::_1BEAT => 0,
            BurstLength::_2BEATS => 1,
            BurstLength::_3BEATS => 2,
            BurstLength::_4BEATS => 3,
            BurstLength::_5BEATS => 4,
            BurstLength::_6BEATS => 5,
            BurstLength::_7BEATS => 6,
            BurstLength::_8BEATS => 7,
            BurstLength::_9BEATS => 8,
            BurstLength::_10BEATS => 9,
            BurstLength::_11BEATS => 10,
            BurstLength::_12BEATS => 11,
            BurstLength::_13BEATS => 12,
            BurstLength::_14BEATS => 13,
            BurstLength::_15BEATS => 14,
            BurstLength::_16BEATS => 15,
        }
    }

    pub fn bits(self) -> (r: u8)
        ensures
            r == self.spec_bits(),
    {
        match self {
            BurstLength::_1BEAT => 0,
            BurstLength::_2BEATS => 1,
            BurstLength::_3BEATS => 2,
            BurstLength::_4BEATS => 3,
            BurstLength::_5BEATS => 4,
            BurstLength::_6BEATS => 5,
            BurstLength::_7BEATS => 6,
            BurstLength::_8BEATS => 7,
            BurstLength::_9BEATS => 8,
            BurstLength::_10BEATS => 9,
            BurstLength::_11BEATS => 10,
            BurstLength::_12BEATS => 11,
            BurstLength::_13BEATS => 12,
            BurstLength::_14BEATS => 13,
            BurstLength::_15BEATS => 14,
            BurstLength::_16BEATS => 15,
        }
    }
}

/// Number of beats buffered before a burst is initiated.
#[allow(non_camel_case_types)]
#[derive(Clone, Copy, PartialEq, Eq, Structural, Debug)]
pub enum FifoThreshold {
    _1BEAT,
    _2BEATS,
    _4BEATS,
    _8BEATS,
}

impl FifoThreshold {
    /// Encoding of the threshold in the channel's control register.
    pub open spec fn spec_bits(self) -> u8 {
        match self {
            FifoThreshold::_1BEAT => 0,
            FifoThreshold::_2BEATS => 1,
            FifoThreshold::_4BEATS => 2,
            FifoThreshold::_8BEATS => 3,
        }
    }

    pub fn bits(self) -> (r: u8)
        ensures
            r == self.spec_bits(),
    {
        match self {
            FifoThreshold::_1BEAT => 0,
            FifoThreshold::_2BEATS => 1,
            FifoThreshold::_4BEATS => 2,
            FifoThreshold::_8BEATS => 3,
        }
    }
}

/// The DMA controller: owner of every channel's register port until it is
/// split into the individual channels.
pub struct DmaController {
    ch0: ChannelRegisters,
    ch1: ChannelRegisters,
    ch2: ChannelRegisters,
    ch3: ChannelRegisters,
}

/// The channels of a split controller, each in its startup status. Each
/// channel value is the only one with its id: the split is the one place
/// channels are made, and a channel can only be moved, never duplicated.
pub struct Channels {
    pub ch0: Channel<Uninitialized>,
    pub ch1: Channel<Uninitialized>,
    pub ch2: Channel<Uninitialized>,
    pub ch3: Channel<Uninitialized>,
}

impl DmaController {
    /// The register port of channel `i`, as seen by specifications.
    pub closed spec fn chan_regs(&self, i: int) -> ChannelRegisters {
        if i == 0 {
            self.ch0
        } else if i == 1 {
            self.ch1
        } else if i == 2 {
            self.ch2
        } else {
            self.ch3
        }
    }

    /// Take ownership of the DMA hardware with every channel at its
    /// startup state.
    pub fn new() -> (r: DmaController)
        ensures
            forall|i: int| 0 <= i < crate::CHAN_COUNT ==> r.chan_regs(i) == ChannelRegisters::spec_startup(),
    {
        DmaController {
            ch0: ChannelRegisters::startup(),
            ch1: ChannelRegisters::startup(),
            ch2: ChannelRegisters::startup(),
            ch3: ChannelRegisters::startup(),
        }
    }

    /// Split the controller into its channels, consuming it. Exactly one
    /// channel value exists per id afterwards, each owning its register
    /// port exclusively.
    pub fn split(self) -> (r: Channels)
        ensures
            r.ch0.spec_id() == 0 && r.ch0.regs() == self.chan_regs(0),
            r.ch1.spec_id() == 1 && r.ch1.regs() == self.chan_regs(1),
            r.ch2.spec_id() == 2 && r.ch2.regs() == self.chan_regs(2),
            r.ch3.spec_id() == 3 && r.ch3.regs() == self.chan_regs(3),
    {
        Channels {
            ch0: new_chan(0, self.ch0),
            ch1: new_chan(1, self.ch1),
            ch2: new_chan(2, self.ch2),
            ch3: new_chan(3, self.ch3),
        }
    }
}

} // verus!
