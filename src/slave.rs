//! The I2C slave protocol, run from the interrupt handler: one event in, one
//! non-blocking register action out.
use vstd::prelude::*;

use crate::error::ConfigError;
use crate::i2c::MAX_ADDRESS;
use crate::syscon::bit_is_set;

verus! {

/// Where the slave stands in a bus operation.
#[derive(Clone, Copy, Debug, PartialEq, Eq, Structural)]
pub enum SlaveState {
    Idle,
    AddressMatched,
    ReceivingByte,
    TransmittingByte,
    /// The hardware reported a fault; the application must treat it as
    /// fatal.
    Fault,
}

/// The one pending event an interrupt reports.
#[derive(Clone, Copy, Debug, PartialEq, Eq, Structural)]
pub enum SlaveEvent {
    /// Nothing is pending (the interrupt line is shared).
    NonePending,
    AddressMatched,
    /// A byte arrived.
    RxReady(u8),
    /// The master wants a byte.
    TxReady,
    /// The hardware reported a fault.
    Error,
}

/// What the handler does to the hardware in answer.
#[derive(Clone, Copy, Debug, PartialEq, Eq, Structural)]
pub enum SlaveAction {
    /// Nothing: no event was pending.
    WouldBlock,
    /// Acknowledge the address.
    AckAddress,
    /// Acknowledge the byte received.
    AckByte,
    /// Send this byte.
    Transmit(u8),
    /// A byte is requested but none has been received: write nothing.
    NoData,
    /// Unrecoverable; the application must abort.
    Fatal,
}

/// The reply to a received byte: the byte doubled, as a shift left by one.
pub open spec fn reply_to(b: u8) -> u8 {
    ((b as int * 2) % 256) as u8
}

/// The protocol: the next state, the byte kept, and the action, for an event
/// in a state with the last byte received.
pub open spec fn step(state: SlaveState, last: Option<u8>, event: SlaveEvent) -> (
    SlaveState,
    Option<u8>,
    SlaveAction,
) {
    match event {
        SlaveEvent::NonePending => (state, last, SlaveAction::WouldBlock),
        _ => if state == SlaveState::Fault {
            (SlaveState::Fault, last, SlaveAction::Fatal)
        } else {
            match event {
                SlaveEvent::AddressMatched => (
                    SlaveState::AddressMatched,
                    last,
                    SlaveAction::AckAddress,
                ),
                SlaveEvent::RxReady(b) => (SlaveState::ReceivingByte, Some(b), SlaveAction::AckByte),
                SlaveEvent::TxReady => match last {
                    Some(b) => (SlaveState::TransmittingByte, last, SlaveAction::Transmit(reply_to(b))),
                    None => (SlaveState::TransmittingByte, last, SlaveAction::NoData),
                },
                _ => (SlaveState::Fault, last, SlaveAction::Fatal),
            }
        },
    }
}

/// Decoding of the STAT register for the slave: an error flag (MSTARBLOSS,
/// bit 4; MSTSTSTPERR, bit 6; MONOV, bit 17; EVENTTIMEOUT, bit 24;
/// SCLTIMEOUT, bit 25) wins; then nothing is pending without SLVPENDING
/// (bit 8); else SLVSTATE (bits 9 and 10) names the event, a received byte
/// read from SLVDAT.
pub open spec fn slave_event(stat: u32, slvdat: u8) -> SlaveEvent {
    if bit_is_set(stat, 4) || bit_is_set(stat, 6) || bit_is_set(stat, 17) || bit_is_set(stat, 24)
        || bit_is_set(stat, 25) {
        SlaveEvent::Error
    } else if !bit_is_set(stat, 8) {
        SlaveEvent::NonePending
    } else {
        let state = (stat >> 9u32) & 3u32;
        if state == 0 {
            SlaveEvent::AddressMatched
        } else if state == 1 {
            SlaveEvent::RxReady(slvdat)
        } else if state == 2 {
            SlaveEvent::TxReady
        } else {
            SlaveEvent::Error
        }
    }
}

fn flag(stat: u32, bit: u32) -> (r: bool)
    requires
        bit < 32,
    ensures
        r == bit_is_set(stat, bit),
{
    (stat >> bit) & 1u32 == 1u32
}

/// Reads the STAT and SLVDAT register values as the pending slave event.
pub fn decode_slave_status(stat: u32, slvdat: u8) -> (r: SlaveEvent)
    ensures
        r == slave_event(stat, slvdat),
{
    if flag(stat, 4) || flag(stat, 6) || flag(stat, 17) || flag(stat, 24) || flag(stat, 25) {
        SlaveEvent::Error
    } else if !flag(stat, 8) {
        SlaveEvent::NonePending
    } else {
        let state = (stat >> 9u32) & 3u32;
        if state == 0 {
            SlaveEvent::AddressMatched
        } else if state == 1 {
            SlaveEvent::RxReady(slvdat)
        } else if state == 2 {
            SlaveEvent::TxReady
        } else {
            SlaveEvent::Error
        }
    }
}

/// The slave side of the bus: its address and its protocol state.
#[derive(Debug)]
pub struct Slave {
    address: u8,
    state: SlaveState,
    last: Option<u8>,
}

impl Slave {
    #[verifier::type_invariant]
    pub closed spec fn address_valid(&self) -> bool {
        self.address <= MAX_ADDRESS
    }

    pub closed spec fn spec_address(&self) -> u8 {
        self.address
    }

    pub closed spec fn spec_state(&self) -> SlaveState {
        self.state
    }

    /// The one byte kept from the last receive.
    pub closed spec fn spec_last(&self) -> Option<u8> {
        self.last
    }

    /// A slave that answers to `address`, idle with no byte kept. Fails with
    /// `InvalidAddress` where `address` is not a 7-bit address.
    pub fn new(address: u8) -> (r: Result<Slave, ConfigError>)
        ensures
            r is Err <==> address > MAX_ADDRESS,
            r is Err ==> r->Err_0 == ConfigError::InvalidAddress,
            r matches Ok(s) ==> s.spec_address() == address && s.spec_state() == SlaveState::Idle
                && s.spec_last() is None,
    {
        if address > MAX_ADDRESS {
            return Err(ConfigError::InvalidAddress);
        }
        Ok(Slave { address, state: SlaveState::Idle, last: None })
    }

    pub fn address(&self) -> (r: u8)
        ensures
            r == self.spec_address(),
            r <= MAX_ADDRESS,
    {
        proof {
            use_type_invariant(self);
        }
        self.address
    }

    /// The SLVADR0 register value: the address above the enable bit's
    /// place, which stays clear to enable it.
    pub fn address_register(&self) -> (r: u32)
        ensures
            r == self.spec_address() * 2,
    {
        proof {
            use_type_invariant(self);
        }
        self.address as u32 * 2
    }

    pub fn state(&self) -> (r: SlaveState)
        ensures
            r == self.spec_state(),
    {
        self.state
    }

    pub fn last_received(&self) -> (r: Option<u8>)
        ensures
            r == self.spec_last(),
    {
        self.last
    }

    /// Handles one event: moves to the next state and says what to do to the
    /// hardware. It never waits.
    pub fn handle(&mut self, event: SlaveEvent) -> (r: SlaveAction)
        ensures
            (final(self).spec_state(), final(self).spec_last(), r) == step(
                old(self).spec_state(),
                old(self).spec_last(),
                event,
            ),
            final(self).spec_address() == old(self).spec_address(),
    {
        proof {
            use_type_invariant(&*self);
        }
        match event {
            SlaveEvent::NonePending => SlaveAction::WouldBlock,
            _ => {
                if self.state == SlaveState::Fault {
                    return SlaveAction::Fatal;
                }
                match event {
                    SlaveEvent::AddressMatched => {
                        self.state = SlaveState::AddressMatched;
                        SlaveAction::AckAddress
                    },
                    SlaveEvent::RxReady(b) => {
                        self.state = SlaveState::ReceivingByte;
                        self.last = Some(b);
                        SlaveAction::AckByte
                    },
                    SlaveEvent::TxReady => {
                        self.state = SlaveState::TransmittingByte;
                        match self.last {
                            Some(b) => SlaveAction::Transmit(((b as u16 * 2) % 256) as u8),
                            None => SlaveAction::NoData,
                        }
                    },
                    _ => {
                        self.state = SlaveState::Fault;
                        SlaveAction::Fatal
                    },
                }
            },
        }
    }
}

/// A new bus operation always wins: an address match in any state but
/// `Fault` leads to `AddressMatched`, with the kept byte unchanged and the
/// address acknowledged, and the same again when repeated.
pub proof fn lemma_address_match_wins(state: SlaveState, last: Option<u8>)
    requires
        state != SlaveState::Fault,
    ensures
        step(state, last, SlaveEvent::AddressMatched) == (
            SlaveState::AddressMatched,
            last,
            SlaveAction::AckAddress,
        ),
        step(SlaveState::AddressMatched, last, SlaveEvent::AddressMatched) == step(
            state,
            last,
            SlaveEvent::AddressMatched,
        ),
{
}

/// Only a fault reported by the hardware leads to `Fault`.
pub proof fn lemma_fault_only_from_error(state: SlaveState, last: Option<u8>, event: SlaveEvent)
    requires
        state != SlaveState::Fault,
        event != SlaveEvent::Error,
    ensures
        step(state, last, event).0 != SlaveState::Fault,
{
}

/// A poll with nothing pending leaves the state and the kept byte as they
/// were, and does nothing to the hardware.
pub proof fn lemma_would_block_keeps_state(state: SlaveState, last: Option<u8>)
    ensures
        step(state, last, SlaveEvent::NonePending) == (state, last, SlaveAction::WouldBlock),
{
}

} // verus!
