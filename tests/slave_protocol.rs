use lpc82x_hal::error::ConfigError;
use lpc82x_hal::slave::{decode_slave_status, Slave, SlaveAction, SlaveEvent, SlaveState};

fn slave() -> Slave {
    Slave::new(0x24).unwrap()
}

#[test]
fn slave_address_is_validated() {
    assert_eq!(Slave::new(0x80).unwrap_err(), ConfigError::InvalidAddress);
    assert_eq!(Slave::new(0xff).unwrap_err(), ConfigError::InvalidAddress);
    let s = Slave::new(127).unwrap();
    assert_eq!(s.address(), 127);
    assert_eq!(s.address_register(), 254);
    assert_eq!(slave().state(), SlaveState::Idle);
    assert_eq!(slave().last_received(), None);
}

#[test]
fn address_match_wins_in_every_non_fault_state() {
    let mut s = slave();
    assert_eq!(s.handle(SlaveEvent::AddressMatched), SlaveAction::AckAddress);
    assert_eq!(s.state(), SlaveState::AddressMatched);
    assert_eq!(s.handle(SlaveEvent::AddressMatched), SlaveAction::AckAddress);
    assert_eq!(s.state(), SlaveState::AddressMatched);
    s.handle(SlaveEvent::RxReady(7));
    assert_eq!(s.handle(SlaveEvent::AddressMatched), SlaveAction::AckAddress);
    assert_eq!(s.state(), SlaveState::AddressMatched);
    assert_eq!(s.last_received(), Some(7));
    s.handle(SlaveEvent::TxReady);
    assert_eq!(s.state(), SlaveState::TransmittingByte);
    assert_eq!(s.handle(SlaveEvent::AddressMatched), SlaveAction::AckAddress);
    assert_eq!(s.state(), SlaveState::AddressMatched);
}

#[test]
fn received_byte_is_kept_and_overwritten() {
    let mut s = slave();
    assert_eq!(s.handle(SlaveEvent::RxReady(0x14)), SlaveAction::AckByte);
    assert_eq!(s.state(), SlaveState::ReceivingByte);
    assert_eq!(s.last_received(), Some(0x14));
    s.handle(SlaveEvent::RxReady(0x90));
    assert_eq!(s.last_received(), Some(0x90));
    // Doubling wraps like a shift left.
    assert_eq!(s.handle(SlaveEvent::TxReady), SlaveAction::Transmit(0x20));
}

#[test]
fn transmit_without_a_received_byte_writes_nothing() {
    let mut s = slave();
    assert_eq!(s.handle(SlaveEvent::TxReady), SlaveAction::NoData);
    assert_eq!(s.state(), SlaveState::TransmittingByte);
    assert_eq!(s.last_received(), None);
}

#[test]
fn would_block_leaves_state_unchanged() {
    let mut s = slave();
    assert_eq!(s.handle(SlaveEvent::NonePending), SlaveAction::WouldBlock);
    assert_eq!(s.state(), SlaveState::Idle);
    s.handle(SlaveEvent::RxReady(3));
    assert_eq!(s.handle(SlaveEvent::NonePending), SlaveAction::WouldBlock);
    assert_eq!(s.state(), SlaveState::ReceivingByte);
    assert_eq!(s.last_received(), Some(3));
}

#[test]
fn hardware_fault_is_fatal_and_sticks() {
    let mut s = slave();
    s.handle(SlaveEvent::RxReady(3));
    assert_eq!(s.handle(SlaveEvent::Error), SlaveAction::Fatal);
    assert_eq!(s.state(), SlaveState::Fault);
    assert_eq!(s.handle(SlaveEvent::AddressMatched), SlaveAction::Fatal);
    assert_eq!(s.state(), SlaveState::Fault);
    assert_eq!(s.handle(SlaveEvent::NonePending), SlaveAction::WouldBlock);
    assert_eq!(s.state(), SlaveState::Fault);
}

#[test]
fn slave_status_decoding() {
    assert_eq!(decode_slave_status(0, 0), SlaveEvent::NonePending);
    assert_eq!(decode_slave_status(1 << 8, 0), SlaveEvent::AddressMatched);
    assert_eq!(decode_slave_status((1 << 8) | (1 << 9), 0x14), SlaveEvent::RxReady(0x14));
    assert_eq!(decode_slave_status((1 << 8) | (2 << 9), 0), SlaveEvent::TxReady);
    assert_eq!(decode_slave_status((1 << 8) | (3 << 9), 0), SlaveEvent::Error);
    assert_eq!(decode_slave_status((1 << 8) | (1 << 24), 0), SlaveEvent::Error);
    assert_eq!(decode_slave_status(1 << 25, 0), SlaveEvent::Error);
    assert_eq!(decode_slave_status(1 << 17, 0), SlaveEvent::Error);
    assert_eq!(decode_slave_status(1 << 4, 0), SlaveEvent::Error);
}
