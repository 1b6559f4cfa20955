use lpc82x_hal::descriptors::DescriptorTable;
use lpc82x_hal::dma::{DmaStatus, DMA};
use lpc82x_hal::error::{BusFault, ConfigError};
use lpc82x_hal::i2c::{decode_master_status, BusEvent, Master, Progress};
use lpc82x_hal::slave::{Slave, SlaveAction, SlaveEvent, SlaveState};

const MSTDAT: u32 = 0x4005_0024;
const TX_ADDR: u32 = 0x1000_0400;
const RX_ADDR: u32 = 0x1000_0410;

fn dma() -> DMA {
    DMA::new(DescriptorTable::new(0x1000_0000).unwrap())
}

#[test]
fn invalid_address_is_refused_without_side_effects() {
    let mut dma = dma();
    let ch = dma.channels.take(15).unwrap();
    for address in [0x80u8, 0xa4, 0xff] {
        let ch_before = dma.channels.descriptor(15);
        let refused = Master::new(MSTDAT).write_all(address, vec![0x14], TX_ADDR, dma.channels.take(14).unwrap()).unwrap_err();
        assert_eq!(refused.error, ConfigError::InvalidAddress);
        assert_eq!(refused.buffer, vec![0x14]);
        assert!(!refused.master.start_requested());
        assert!(!refused.master.dma_enabled());
        assert_eq!(refused.master.mstdat(), 0);
        assert_eq!(refused.channel.index(), 14);
        assert_eq!(dma.channels.descriptor(15), ch_before);
        dma.channels.give_back(refused.channel);
        let refused = Master::new(MSTDAT).read_all(address, vec![0; 2], RX_ADDR, dma.channels.take(14).unwrap()).unwrap_err();
        assert_eq!(refused.error, ConfigError::InvalidAddress);
        dma.channels.give_back(refused.channel);
    }
    assert!(!dma.channels.is_armed(15));
    dma.channels.give_back(ch);
}

#[test]
fn too_long_a_write_is_degenerate() {
    let mut dma = dma();
    let ch = dma.channels.take(0).unwrap();
    let refused = Master::new(MSTDAT).write_all(0x24, vec![0; 1025], TX_ADDR, ch).unwrap_err();
    assert_eq!(refused.error, ConfigError::DegenerateTransfer);
    assert_eq!(refused.buffer.len(), 1025);
}

#[test]
fn zero_length_write_and_read_complete_at_once() {
    let mut dma = dma();
    let ch = dma.channels.take(15).unwrap();
    let pending = Master::new(MSTDAT).write_all(0x24, Vec::new(), TX_ADDR, ch).unwrap();
    let row = dma.channels.descriptor(15);
    let pending = pending.start(&mut dma.channels);
    assert!(!dma.channels.is_armed(15));
    assert_eq!(dma.channels.descriptor(15), row);
    assert!(!pending.master_registers().start_requested());
    assert!(!pending.master_registers().dma_enabled());
    assert_eq!(pending.poll(DmaStatus::Busy, BusEvent::InProgress), Progress::Complete);
    let done = pending.finish(&mut dma.channels, Progress::Complete).unwrap();
    assert!(!done.master.start_requested());
    assert!(!done.master.dma_enabled());
    assert!(!done.master.stop_requested());
    assert_eq!(done.master.mstdat(), 0);
    let pending = done.master.read_all(0x24, Vec::new(), RX_ADDR, done.channel).unwrap();
    let pending = pending.start(&mut dma.channels);
    assert!(!dma.channels.is_armed(15));
    assert_eq!(pending.poll(DmaStatus::Busy, BusEvent::InProgress), Progress::Complete);
    let done = pending.finish(&mut dma.channels, Progress::Complete).unwrap();
    assert!(done.buffer.is_empty());
    assert!(!done.master.stop_requested());
    assert_eq!(done.master.mstdat(), 0);
    assert_eq!(done.channel.index(), 15);
}

#[test]
fn zero_length_transaction_succeeds_whatever_the_outcome() {
    let mut dma = dma();
    let ch = dma.channels.take(4).unwrap();
    let pending = Master::new(MSTDAT).write_all(0x10, Vec::new(), TX_ADDR, ch).unwrap().start(&mut dma.channels);
    let done = pending.finish(&mut dma.channels, Progress::Failed(BusFault::Timeout)).unwrap();
    assert!(!done.master.stop_requested());
    assert_eq!(done.channel.index(), 4);
}

#[test]
fn master_status_decoding() {
    assert_eq!(decode_master_status(0), BusEvent::InProgress);
    assert_eq!(decode_master_status(1), BusEvent::Idle);
    assert_eq!(decode_master_status(1 | (1 << 1)), BusEvent::RxReady);
    assert_eq!(decode_master_status(1 | (2 << 1)), BusEvent::TxReady);
    assert_eq!(decode_master_status(1 | (3 << 1)), BusEvent::Fault(BusFault::NackAddress));
    assert_eq!(decode_master_status(1 | (4 << 1)), BusEvent::Fault(BusFault::NackData));
    assert_eq!(decode_master_status(1 << 4), BusEvent::Fault(BusFault::ArbitrationLost));
    assert_eq!(decode_master_status(1 << 6), BusEvent::Fault(BusFault::StartStopError));
    assert_eq!(decode_master_status(1 | (5 << 1)), BusEvent::InProgress);
}

#[test]
fn nack_at_address_returns_the_channel_usable() {
    let mut dma = dma();
    let ch = dma.channels.take(15).unwrap();
    let pending = Master::new(MSTDAT).write_all(0x24, vec![0x14], TX_ADDR, ch).unwrap().start(&mut dma.channels);
    assert!(dma.channels.is_armed(15));
    let outcome = pending.poll(DmaStatus::Busy, decode_master_status(1 | (3 << 1)));
    assert_eq!(outcome, Progress::Failed(BusFault::NackAddress));
    let failed = pending.finish(&mut dma.channels, outcome).unwrap_err();
    assert_eq!(failed.fault, BusFault::NackAddress);
    assert_eq!(failed.buffer, vec![0x14]);
    assert!(!dma.channels.is_armed(15));
    assert!(!failed.master.start_requested());
    // The same channel runs the retry.
    let pending = failed.master.write_all(0x24, failed.buffer, TX_ADDR, failed.channel).unwrap().start(&mut dma.channels);
    assert!(dma.channels.is_armed(15));
    assert_eq!(pending.poll(DmaStatus::Aborted, BusEvent::InProgress), Progress::Failed(BusFault::TransferAborted));
    assert_eq!(pending.poll(DmaStatus::Done, BusEvent::InProgress), Progress::Waiting);
    assert_eq!(pending.poll(DmaStatus::Done, BusEvent::RxReady), Progress::Waiting);
    assert_eq!(pending.poll(DmaStatus::Done, BusEvent::TxReady), Progress::Complete);
    let done = pending.finish(&mut dma.channels, Progress::Complete).unwrap();
    assert!(done.master.stop_requested());
    assert_eq!(done.channel.index(), 15);
}

#[test]
fn timeout_is_a_named_fault() {
    let mut dma = dma();
    let ch = dma.channels.take(2).unwrap();
    let pending = Master::new(MSTDAT).read_all(0x10, vec![0; 3], RX_ADDR, ch).unwrap().start(&mut dma.channels);
    assert_eq!(pending.poll(DmaStatus::Busy, BusEvent::InProgress), Progress::Waiting);
    let failed = pending.finish(&mut dma.channels, Progress::Failed(BusFault::Timeout)).unwrap_err();
    assert_eq!(failed.fault, BusFault::Timeout);
    assert!(!dma.channels.is_armed(2));
    assert_eq!(failed.channel.index(), 2);
}

#[test]
fn start_arms_the_channel_and_requests_start() {
    let mut dma = dma();
    let ch = dma.channels.take(15).unwrap();
    let pending = Master::new(MSTDAT).write_all(0x24, vec![1, 2, 3], TX_ADDR, ch).unwrap();
    let pending = pending.start(&mut dma.channels);
    assert!(dma.channels.is_armed(15));
    let d = dma.channels.descriptor(15);
    assert_eq!(d.config, 1 | 8 | (1 << 12) | (2 << 16));
    assert_eq!(d.source_end, TX_ADDR + 2);
    assert_eq!(d.dest_end, MSTDAT);
    assert_eq!(pending.len(), 3);
}

#[test]
fn write_then_read_round_trip_through_the_slave() {
    const ADDRESS: u8 = 0x24;
    let mut dma = dma();
    let mut slave = Slave::new(ADDRESS).unwrap();
    let mut channel = dma.channels.take(15).unwrap();
    let mut master = Master::new(MSTDAT);

    // Write 0x14 to the slave.
    let mut pending = master.write_all(ADDRESS, vec![0x14], TX_ADDR, channel).unwrap().start(&mut dma.channels);
    assert_eq!(slave.handle(SlaveEvent::AddressMatched), SlaveAction::AckAddress);
    let sent = pending.dma_request(0).unwrap();
    assert_eq!(sent, 0x14);
    assert_eq!(slave.handle(SlaveEvent::RxReady(sent)), SlaveAction::AckByte);
    let outcome = pending.poll(DmaStatus::Done, BusEvent::TxReady);
    let done = pending.finish(&mut dma.channels, outcome).unwrap();
    channel = done.channel;
    master = done.master;

    // Read one byte back.
    let mut pending = master.read_all(ADDRESS, vec![0], RX_ADDR, channel).unwrap().start(&mut dma.channels);
    assert_eq!(slave.handle(SlaveEvent::AddressMatched), SlaveAction::AckAddress);
    let reply = match slave.handle(SlaveEvent::TxReady) {
        SlaveAction::Transmit(b) => b,
        other => panic!("unexpected action {:?}", other),
    };
    assert_eq!(slave.state(), SlaveState::TransmittingByte);
    assert_eq!(pending.dma_request(reply), None);
    let outcome = pending.poll(DmaStatus::Done, BusEvent::RxReady);
    let done = pending.finish(&mut dma.channels, outcome).unwrap();
    assert_eq!(done.buffer, vec![0x28]);
    assert_eq!(done.buffer[0], 0x14 * 2);
    assert_eq!(done.master.mstdat(), (ADDRESS << 1) | 1);
}
