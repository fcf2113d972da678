//! Tests for the DMA channel state machine: lifecycle, reset behaviour,
//! trigger handling, interrupt flag decoding and the freeing protocol.

use samd_hal::dmac::channel::CallbackStatus;
use samd_hal::dmac::channel::InterruptFlags;
use samd_hal::dmac::controller::DmaController;
use samd_hal::dmac::controller::PriorityLevel;
use samd_hal::dmac::controller::TriggerAction;
use samd_hal::dmac::controller::TriggerSource;

#[test]
fn channel_lifecycle_scenario() {
    // Acquire channel 1 in its uninitialized state.
    let channels = DmaController::new().split();
    let ch1 = channels.ch1;
    assert_eq!(ch1.id(), 1);

    // Initialise at the lowest priority level and check the priority
    // register took its encoded value.
    let ready = ch1.init(PriorityLevel::LVL0);
    assert_eq!(ready.priority_bits(), 0);
    assert!(!ready.enable_bit());

    // Start with the disabled trigger source: the enable bit is set and
    // the software trigger has been asserted exactly once.
    let mut busy = ready.start(TriggerSource::DISABLE, TriggerAction::TRANSACTION);
    assert!(busy.enable_bit());
    assert!(busy.swtrig_bit());
    assert_eq!(busy.swtrig_count(), 1);

    // Simulate the hardware clearing the enable bit at completion.
    busy.hw_complete_transfer(0);
    assert!(busy.xfer_complete());

    // Free the channel: beyond the one disable request, no further
    // hardware writes happen.
    let writes_before = busy.enable_writes();
    let ready = busy.free();
    assert_eq!(ready.enable_writes(), writes_before + 1);
    assert!(!ready.enable_bit());
}

#[test]
fn reset_after_init_restores_init_state() {
    for lvl in [
        PriorityLevel::LVL0,
        PriorityLevel::LVL1,
        PriorityLevel::LVL2,
        PriorityLevel::LVL3,
    ] {
        let channels = DmaController::new().split();
        let ready = channels.ch0.init(lvl);

        // Capture the architectural state right after initialisation.
        let prio = ready.priority_bits();
        let enable = ready.enable_bit();
        let swtrig = ready.swtrig_bit();
        let flags = ready.pending_flags();
        let enables = ready.int_enable_flags();

        // A reset immediately after initialisation must leave the
        // architectural register contents identical.
        let uninit = ready.reset();
        assert_eq!(uninit.priority_bits(), prio);
        assert_eq!(uninit.enable_bit(), enable);
        assert_eq!(uninit.swtrig_bit(), swtrig);
        assert_eq!(uninit.pending_flags().into_bytes(), flags.into_bytes());
        assert_eq!(uninit.int_enable_flags().into_bytes(), enables.into_bytes());
    }
}

#[test]
fn start_with_hardware_trigger_never_software_triggers() {
    let channels = DmaController::new().split();
    let ready = channels.ch2.init(PriorityLevel::LVL1);
    let busy = ready.start(TriggerSource::SERCOM0_RX, TriggerAction::BURST);
    assert!(busy.enable_bit());
    assert!(!busy.swtrig_bit());
    assert_eq!(busy.swtrig_count(), 0);
}

#[test]
fn check_and_clear_returns_requested_pending_subset() {
    let channels = DmaController::new().split();
    let ready = channels.ch0.init(PriorityLevel::LVL0);
    let mut busy = ready.start(TriggerSource::DISABLE, TriggerAction::BLOCK);

    // Error and suspend pending, completion not.
    busy.hw_raise_interrupts(InterruptFlags::new().with_terr(true).with_susp(true));

    // Request error and completion: exactly the pending requested flag
    // comes back and is cleared; the unrequested suspend flag stays.
    let request = InterruptFlags::new().with_terr(true).with_tcmpl(true);
    let cleared = busy.check_and_clear_interrupts(request);
    assert!(cleared.terr());
    assert!(!cleared.tcmpl());
    assert!(!cleared.susp());

    let pending = busy.pending_flags();
    assert!(!pending.terr());
    assert!(!pending.tcmpl());
    assert!(pending.susp());
}

#[test]
fn callback_priority_complete_first() {
    let channels = DmaController::new().split();
    let ready = channels.ch3.init(PriorityLevel::LVL3);
    let mut busy = ready.start(TriggerSource::DISABLE, TriggerAction::TRANSACTION);

    // All three conditions pending at once.
    busy.hw_raise_interrupts(
        InterruptFlags::new().with_terr(true).with_tcmpl(true).with_susp(true),
    );

    // Completion wins, and only the completion flag is cleared.
    let status = busy.callback();
    assert!(matches!(status, CallbackStatus::TransferComplete));
    let pending = busy.pending_flags();
    assert!(pending.terr());
    assert!(!pending.tcmpl());
    assert!(pending.susp());

    // The next decode reports the error, then the suspension.
    assert!(matches!(busy.callback(), CallbackStatus::TransferError));
    assert!(matches!(busy.callback(), CallbackStatus::TransferSuspended));
}

#[test]
fn spurious_callback_reports_error() {
    let channels = DmaController::new().split();
    let ready = channels.ch0.init(PriorityLevel::LVL2);
    let mut busy = ready.start(TriggerSource::DISABLE, TriggerAction::BLOCK);

    // No flag pending at all: the decode conservatively reports an
    // error and clears nothing.
    let status = busy.callback();
    assert!(matches!(status, CallbackStatus::TransferError));
    let pending = busy.pending_flags();
    assert!(!pending.terr());
    assert!(!pending.tcmpl());
    assert!(!pending.susp());
}

#[test]
fn free_polls_once_per_unit_of_lag() {
    let channels = DmaController::new().split();
    let mut ready = channels.ch1.init(PriorityLevel::LVL0);

    // The hardware takes five polls to confirm the disable.
    ready.hw_set_sync_lag(5);
    let busy = ready.start(TriggerSource::DISABLE, TriggerAction::TRANSACTION);

    let reads_before = busy.enable_reads();
    let ready = busy.free();
    assert_eq!(ready.enable_reads(), reads_before + 6);
    assert!(!ready.enable_bit());
}

#[test]
fn enable_and_disable_interrupts_touch_only_requested_bits() {
    let channels = DmaController::new().split();
    let mut ready = channels.ch0.init(PriorityLevel::LVL0);

    ready.enable_interrupts(InterruptFlags::new().with_terr(true).with_tcmpl(true));
    let enables = ready.int_enable_flags();
    assert!(enables.terr());
    assert!(enables.tcmpl());
    assert!(!enables.susp());

    ready.disable_interrupts(InterruptFlags::new().with_terr(true));
    let enables = ready.int_enable_flags();
    assert!(!enables.terr());
    assert!(enables.tcmpl());
    assert!(!enables.susp());
}

#[test]
fn interrupt_flags_byte_round_trip() {
    let flags = InterruptFlags::from_bytes([0xab]);
    assert_eq!(flags.into_bytes(), [0xab]);

    let flags = InterruptFlags::new().with_tcmpl(true);
    assert_eq!(flags.into_bytes(), [0x02]);
    let flags = flags.with_terr(true).with_susp(true);
    assert_eq!(flags.into_bytes(), [0x07]);

    let mut flags = InterruptFlags::from_bytes([0x05]);
    assert!(flags.terr());
    assert!(!flags.tcmpl());
    assert!(flags.susp());
    flags.set_terr(false);
    flags.set_tcmpl(true);
    flags.set_susp(true);
    assert_eq!(flags.into_bytes(), [0x06]);
}

#[test]
fn interrupt_trigger_source_reports_programmed_source() {
    let channels = DmaController::new().split();
    let ready = channels.ch2.init(PriorityLevel::LVL0);
    let mut busy = ready.start(TriggerSource::SERCOM0_TX, TriggerAction::BURST);
    assert_eq!(busy.interrupt_trigger_source(), 5);
}

#[test]
fn restart_after_suspension_re_enables() {
    let channels = DmaController::new().split();
    let ready = channels.ch0.init(PriorityLevel::LVL0);
    let mut busy = ready.start(TriggerSource::DISABLE, TriggerAction::TRANSACTION);

    busy.hw_raise_interrupts(InterruptFlags::new().with_susp(true));
    assert!(matches!(busy.callback(), CallbackStatus::TransferSuspended));

    busy.hw_complete_transfer(0);
    assert!(!busy.enable_bit());
    busy.restart();
    assert!(busy.enable_bit());
}
