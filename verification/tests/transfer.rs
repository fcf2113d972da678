//! Tests for the transfer coordinator and the shared-controller
//! registry.

use samd_hal::dmac::channel::CallbackStatus;
use samd_hal::dmac::channel::InterruptFlags;
use samd_hal::dmac::controller::DmaController;
use samd_hal::dmac::controller::PriorityLevel;
use samd_hal::dmac::controller::TriggerAction;
use samd_hal::dmac::controller::TriggerSource;
use samd_hal::dmac::registry::SharedRegistry;
use samd_hal::dmac::transfer::Transfer;

#[test]
fn wait_returns_buffers_unchanged_and_a_ready_channel() {
    let channels = DmaController::new().split();
    let ready = channels.ch0.init(PriorityLevel::LVL0);

    let source = vec![1u8, 2, 3, 4];
    let dest = vec![0u8; 4];
    let mut transfer = Transfer::new(
        ready,
        source.clone(),
        dest.clone(),
        TriggerSource::DISABLE,
        TriggerAction::TRANSACTION,
    );

    // Not complete until the hardware says so.
    assert!(!transfer.complete());
    transfer.hw_complete(0);
    assert!(transfer.complete());

    let (src_back, dst_back, chan) = transfer.wait();
    assert_eq!(src_back, source);
    assert_eq!(dst_back, dest);
    assert!(!chan.enable_bit());
}

#[test]
fn stop_abandons_an_incomplete_transfer() {
    let channels = DmaController::new().split();
    let ready = channels.ch1.init(PriorityLevel::LVL1);

    let transfer = Transfer::new(
        ready,
        vec![9u8; 8],
        vec![0u8; 8],
        TriggerSource::SERCOM0_RX,
        TriggerAction::BURST,
    );

    // Stop without waiting for completion: the buffers come back and
    // the channel is disabled.
    let (src_back, dst_back, chan) = transfer.stop();
    assert_eq!(src_back, vec![9u8; 8]);
    assert_eq!(dst_back, vec![0u8; 8]);
    assert!(!chan.enable_bit());
}

#[test]
fn callback_through_a_transfer_decodes_in_priority_order() {
    let channels = DmaController::new().split();
    let ready = channels.ch2.init(PriorityLevel::LVL0);
    let mut transfer = Transfer::new(
        ready,
        vec![0u8; 2],
        vec![0u8; 2],
        TriggerSource::DISABLE,
        TriggerAction::BLOCK,
    );

    transfer.hw_raise_interrupts(InterruptFlags::new().with_tcmpl(true).with_terr(true));
    assert!(matches!(transfer.callback(), CallbackStatus::TransferComplete));
    assert!(matches!(transfer.callback(), CallbackStatus::TransferError));
}

#[test]
fn software_trigger_counts_through_a_transfer() {
    let channels = DmaController::new().split();
    let ready = channels.ch3.init(PriorityLevel::LVL0);
    let mut transfer = Transfer::new(
        ready,
        vec![0u8; 1],
        vec![0u8; 1],
        TriggerSource::DISABLE,
        TriggerAction::TRANSACTION,
    );
    transfer.software_trigger();
    transfer.hw_complete(0);
    let (_, _, chan) = transfer.wait();
    // One trigger at start (disabled source) and one explicit one.
    assert_eq!(chan.swtrig_count(), 2);
}

#[test]
fn registry_stores_once_and_never_lends_twice() {
    let mut slot: SharedRegistry<DmaController> = SharedRegistry::new();
    assert!(!slot.is_occupied());

    // The first store populates the slot.
    assert!(slot.store(DmaController::new()).is_ok());
    assert!(slot.is_occupied());

    // A second store is refused and hands the value back.
    let second = DmaController::new();
    let rejected = slot.store(second);
    assert!(rejected.is_err());

    // Borrowing moves the contents out; a nested borrow finds the slot
    // empty instead of aliasing the controller.
    let taken = slot.take();
    assert!(taken.is_some());
    assert!(slot.take().is_none());

    // Restoring fills the slot again.
    assert!(slot.restore(taken.unwrap()).is_ok());
    assert!(slot.is_occupied());
}
