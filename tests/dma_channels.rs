use lpc82x_hal::descriptors::{Descriptor, DescriptorTable, DESCRIPTOR_BYTES, NUM_CHANNELS};
use lpc82x_hal::dma::{check_transfer, DmaStatus, Endpoint, Transfer, Width, DMA};
use lpc82x_hal::error::ConfigError;
use lpc82x_hal::syscon::SYSCON;

const BASE: u32 = 0x1000_0200;

fn dma() -> DMA {
    DMA::new(DescriptorTable::new(BASE).unwrap())
}

#[test]
fn descriptor_bytes_are_little_endian_words() {
    let d = Descriptor { config: 0x0403_0201, source_end: 0x0807_0605, dest_end: 0x0c0b_0a09, next: 0x100f_0e0d };
    let bytes = d.to_bytes();
    assert_eq!(bytes, (1u8..=16).collect::<Vec<u8>>());
    assert_eq!(Descriptor::empty().to_bytes(), vec![0u8; 16]);
}

#[test]
fn table_rejects_misaligned_base() {
    assert_eq!(DescriptorTable::new(0x1000_0100).unwrap_err(), ConfigError::MisalignedTable);
    assert_eq!(DescriptorTable::new(0xffff_ff00).unwrap_err(), ConfigError::MisalignedTable);
    let top = DescriptorTable::new(0xffff_fe00).unwrap();
    assert_eq!(top.row_address(NUM_CHANNELS - 1), 0xffff_ff10);
    let t = DescriptorTable::new(0).unwrap();
    assert_eq!(t.base(), 0);
    assert_eq!(t.row_address(NUM_CHANNELS - 1), 17 * 16);
}

#[test]
fn rows_are_sixteen_bytes_apart() {
    let t = DescriptorTable::new(BASE).unwrap();
    for i in 0..NUM_CHANNELS {
        assert_eq!(t.row_address(i), BASE + DESCRIPTOR_BYTES * i as u32);
        assert_eq!(t.row(i), Descriptor::empty());
    }
}

#[test]
fn distinct_channels_are_both_granted_with_disjoint_rows() {
    let mut dma = dma();
    for i in 0..NUM_CHANNELS {
        for j in 0..NUM_CHANNELS {
            if i == j {
                continue;
            }
            let a = dma.channels.take(i).unwrap();
            let b = dma.channels.take(j).unwrap();
            assert_eq!(a.index(), i);
            assert_eq!(b.index(), j);
            let ra = dma.channels.descriptor_address(i);
            let rb = dma.channels.descriptor_address(j);
            assert!(ra + DESCRIPTOR_BYTES <= rb || rb + DESCRIPTOR_BYTES <= ra);
            dma.channels.give_back(a);
            dma.channels.give_back(b);
        }
    }
}

#[test]
fn taking_a_taken_channel_fails() {
    let mut dma = dma();
    let ch = dma.channels.take(15).unwrap();
    assert_eq!(dma.channels.take(15).unwrap_err(), ConfigError::ChannelTaken);
    assert!(dma.channels.is_taken(15));
    dma.channels.give_back(ch);
    assert!(!dma.channels.is_taken(15));
    let again = dma.channels.take(15).unwrap();
    assert_eq!(again.index(), 15);
}

#[test]
fn taking_a_channel_past_the_last_fails() {
    let mut dma = dma();
    assert_eq!(dma.channels.take(NUM_CHANNELS).unwrap_err(), ConfigError::NoSuchChannel);
}

#[test]
fn enable_twice_is_rejected() {
    let mut syscon = SYSCON::new(0xdf, 0, 0, 0, 0, 0);
    let mut dma = dma();
    assert!(!dma.handle.is_enabled());
    assert_eq!(dma.handle.srambase_register(), 0);
    assert_eq!(dma.handle.enable(&mut syscon.api), Ok(()));
    assert!(dma.handle.is_enabled());
    assert_eq!(dma.handle.srambase_register(), BASE);
    assert_eq!(syscon.api.sysahbclkctrl, 0xdf | (1 << 29));
    assert_eq!(dma.handle.enable(&mut syscon.api), Err(ConfigError::AlreadyEnabled));
    assert_eq!((syscon.api.uartclkdiv, syscon.api.uartfrgmult, syscon.api.uartfrgdiv), (0, 0, 0));
    assert!(dma.handle.is_enabled());
    assert_eq!(syscon.api.sysahbclkctrl, 0xdf | (1 << 29));
}

#[test]
fn disable_gates_the_clock_and_needs_an_enabled_controller() {
    let mut syscon = SYSCON::new(0xdf, 0, 0, 0, 0, 0);
    let mut dma = dma();
    assert_eq!(dma.handle.disable(&mut syscon.api), Err(ConfigError::NotEnabled));
    dma.handle.enable(&mut syscon.api).unwrap();
    assert_eq!(dma.handle.disable(&mut syscon.api), Ok(()));
    assert!(!dma.handle.is_enabled());
    assert_eq!(syscon.api.sysahbclkctrl, 0xdf);
}

#[test]
fn degenerate_transfers_are_rejected() {
    let mem = Endpoint::Memory { start: 0x1000_0000 };
    let reg = Endpoint::Register { address: 0x4005_0024 };
    assert_eq!(check_transfer(mem, reg, 0, Width::Byte), Err(ConfigError::DegenerateTransfer));
    assert_eq!(check_transfer(mem, reg, 1025, Width::Byte), Err(ConfigError::DegenerateTransfer));
    assert_eq!(check_transfer(mem, reg, 1024, Width::Byte), Ok(()));
    let high = Endpoint::Memory { start: 0xffff_fffe };
    assert_eq!(check_transfer(high, reg, 3, Width::Byte), Err(ConfigError::DegenerateTransfer));
    assert_eq!(check_transfer(high, reg, 2, Width::Byte), Ok(()));
    assert_eq!(check_transfer(high, reg, 2, Width::HalfWord), Err(ConfigError::DegenerateTransfer));
}

#[test]
fn arming_writes_the_descriptor_and_complete_disarms() {
    let mut dma = dma();
    let ch = dma.channels.take(3).unwrap();
    let t = Transfer::new(
        ch,
        vec![0u8; 8],
        Endpoint::Memory { start: 0x1000_0000 },
        Endpoint::Register { address: 0x4005_0024 },
        4,
        Width::HalfWord,
    );
    dma.channels.configure_and_arm(&t);
    assert!(dma.channels.is_armed(3));
    let d = dma.channels.descriptor(3);
    assert_eq!(d.config, 1 | 8 | (1 << 8) | (1 << 12) | (3 << 16));
    assert_eq!(d.source_end, 0x1000_0006);
    assert_eq!(d.dest_end, 0x4005_0024);
    assert_eq!(d.next, 0);
    assert_eq!(dma.channels.poll(&t, 1 << 3, 0), DmaStatus::Busy);
    assert_eq!(dma.channels.poll(&t, 0, 0), DmaStatus::Done);
    assert_eq!(dma.channels.poll(&t, 1 << 3, 1 << 3), DmaStatus::Aborted);
    assert_eq!(dma.channels.poll(&t, !(1 << 3), !(1 << 3)), DmaStatus::Done);
    dma.channels.complete(&t);
    assert!(!dma.channels.is_armed(3));
    assert!(dma.channels.is_taken(3));
    dma.channels.give_back(t.channel);
    assert!(!dma.channels.is_taken(3));
}
