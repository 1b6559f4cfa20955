//! The I2C master engine: write and read transactions addressed to a 7-bit
//! slave, their data phase carried by a DMA transfer.
use vstd::prelude::*;

use crate::descriptors::NUM_CHANNELS;
use crate::dma::{check_transfer, Channel, Channels, DmaStatus, Endpoint, Transfer, Width, MAX_TRANSFER};
use crate::error::{BusFault, ConfigError};
use crate::syscon::bit_is_set;

verus! {

/// Largest 7-bit bus address.
pub const MAX_ADDRESS: u8 = 127;

/// Direction of a master transaction.
#[derive(Clone, Copy, Debug, PartialEq, Eq, Structural)]
pub enum Direction {
    Write,
    Read,
}

/// The byte sent after START: the address and the read/write bit.
pub open spec fn address_byte(address: u8, direction: Direction) -> u8 {
    match direction {
        Direction::Write => (address * 2) as u8,
        Direction::Read => (address * 2 + 1) as u8,
    }
}

/// The I2C master: the images of its MSTDAT and MSTCTL registers, and the
/// address of MSTDAT that the DMA engine reads and writes.
#[derive(Debug)]
pub struct Master {
    data_register: u32,
    mstdat: u8,
    start: bool,
    dma: bool,
    stop: bool,
}

impl Master {
    pub closed spec fn spec_data_register(&self) -> u32 {
        self.data_register
    }

    /// Value last written to MSTDAT.
    pub closed spec fn spec_mstdat(&self) -> u8 {
        self.mstdat
    }

    /// Whether the START condition is requested for the current transaction.
    pub closed spec fn spec_start(&self) -> bool {
        self.start
    }

    /// Whether DMA pacing of the data phase is on.
    pub closed spec fn spec_dma(&self) -> bool {
        self.dma
    }

    /// Whether the last transaction was closed with STOP.
    pub closed spec fn spec_stop(&self) -> bool {
        self.stop
    }

    /// A master whose data register sits at `data_register`.
    pub fn new(data_register: u32) -> (r: Master)
        ensures
            r.spec_data_register() == data_register,
            r.spec_mstdat() == 0,
            !r.spec_start(),
            !r.spec_dma(),
            !r.spec_stop(),
    {
        Master { data_register, mstdat: 0, start: false, dma: false, stop: false }
    }

    pub fn mstdat(&self) -> (r: u8)
        ensures
            r == self.spec_mstdat(),
    {
        self.mstdat
    }

    pub fn start_requested(&self) -> (r: bool)
        ensures
            r == self.spec_start(),
    {
        self.start
    }

    pub fn dma_enabled(&self) -> (r: bool)
        ensures
            r == self.spec_dma(),
    {
        self.dma
    }

    pub fn stop_requested(&self) -> (r: bool)
        ensures
            r == self.spec_stop(),
    {
        self.stop
    }

    /// Prepares a write of `bytes`, held at `bytes_address`, to the slave at
    /// `address`, its data phase on `channel`. Fails, with everything handed
    /// back untouched, with `InvalidAddress` where `address` is not a 7-bit
    /// address, else with `DegenerateTransfer` where the engine could not
    /// move the bytes. No bytes is a transaction that completes at once.
    pub fn write_all(self, address: u8, bytes: Vec<u8>, bytes_address: u32, channel: Channel) -> (r:
        Result<Pending, Refused>)
        ensures
            r is Err <==> !accepted(address, bytes@.len(), bytes_address),
            r matches Err(e) ==> e.error == refusal(address) && e.master == self && e.channel
                == channel && e.buffer == bytes,
            r matches Ok(p) ==> p.wf() && p.direction() == Direction::Write && p.buffer()
                == bytes@ && p.count() == bytes@.len() && p.channel_id() == channel.id()
                && !p.started() && p.moved() == 0 && (p.count() == 0 ==> p.master() == self) && (p.count()
                > 0 ==> p.master().spec_mstdat() == address_byte(address, Direction::Write)
                && p.master().spec_data_register() == self.spec_data_register()
                && !p.master().spec_start() && !p.master().spec_dma() && !p.master().spec_stop()),
    {
        self.prepare(address, bytes, bytes_address, channel, Direction::Write)
    }

    /// Prepares a read that fills `buffer`, held at `buffer_address`, from
    /// the slave at `address`, its data phase on `channel`. Fails as
    /// `write_all` does.
    pub fn read_all(self, address: u8, buffer: Vec<u8>, buffer_address: u32, channel: Channel) -> (r:
        Result<Pending, Refused>)
        ensures
            r is Err <==> !accepted(address, buffer@.len(), buffer_address),
            r matches Err(e) ==> e.error == refusal(address) && e.master == self && e.channel
                == channel && e.buffer == buffer,
            r matches Ok(p) ==> p.wf() && p.direction() == Direction::Read && p.buffer()
                == buffer@ && p.count() == buffer@.len() && p.channel_id() == channel.id()
                && !p.started() && p.moved() == 0 && (p.count() == 0 ==> p.master() == self) && (p.count()
                > 0 ==> p.master().spec_mstdat() == address_byte(address, Direction::Read)
                && p.master().spec_data_register() == self.spec_data_register()
                && !p.master().spec_start() && !p.master().spec_dma() && !p.master().spec_stop()),
    {
        self.prepare(address, buffer, buffer_address, channel, Direction::Read)
    }

    fn prepare(
        self,
        address: u8,
        buffer: Vec<u8>,
        buffer_address: u32,
        channel: Channel,
        direction: Direction,
    ) -> (r: Result<Pending, Refused>)
        ensures
            r is Err <==> !accepted(address, buffer@.len(), buffer_address),
            r matches Err(e) ==> e.error == refusal(address) && e.master == self && e.channel
                == channel && e.buffer == buffer,
            r matches Ok(p) ==> p.wf() && p.direction() == direction && p.buffer() == buffer@
                && p.count() == buffer@.len() && p.channel_id() == channel.id() && !p.started()
                && p.moved() == 0 && (p.count() == 0 ==> p.master() == self) && (p.count() > 0
                ==> p.master().spec_mstdat() == address_byte(address, direction)
                && p.master().spec_data_register() == self.spec_data_register()
                && !p.master().spec_start() && !p.master().spec_dma() && !p.master().spec_stop()),
    {
        if address > MAX_ADDRESS {
            return Err(Refused { error: ConfigError::InvalidAddress, master: self, channel, buffer });
        }
        let len = buffer.len();
        let ends = data_ends(direction, buffer_address, self.data_register);
        if len > 0 && check_transfer(ends.0, ends.1, len, Width::Byte).is_err() {
            return Err(
                Refused { error: ConfigError::DegenerateTransfer, master: self, channel, buffer },
            );
        }
        if len == 0 {
            return Ok(
                Pending {
                    master: self,
                    direction,
                    job: Job::Empty { channel, buffer },
                    started: false,
                    moved: 0,
                },
            );
        }
        let mstdat = match direction {
            Direction::Write => address * 2,
            Direction::Read => address * 2 + 1,
        };
        let master = Master {
            data_register: self.data_register,
            mstdat,
            start: false,
            dma: false,
            stop: false,
        };
        let job = Job::Data {
            transfer: Transfer::new(channel, buffer, ends.0, ends.1, len, Width::Byte),
        };
        Ok(Pending { master, direction, job, started: false, moved: 0 })
    }
}

/// The two ends of a transaction's data phase: from the buffer to the data
/// register for a write, the other way round for a read.
pub open spec fn ends_of(direction: Direction, buffer_address: u32, data_register: u32) -> (
    Endpoint,
    Endpoint,
) {
    match direction {
        Direction::Write => (
            Endpoint::Memory { start: buffer_address },
            Endpoint::Register { address: data_register },
        ),
        Direction::Read => (
            Endpoint::Register { address: data_register },
            Endpoint::Memory { start: buffer_address },
        ),
    }
}

fn data_ends(direction: Direction, buffer_address: u32, data_register: u32) -> (r: (
    Endpoint,
    Endpoint,
))
    ensures
        r == ends_of(direction, buffer_address, data_register),
{
    match direction {
        Direction::Write => (
            Endpoint::Memory { start: buffer_address },
            Endpoint::Register { address: data_register },
        ),
        Direction::Read => (
            Endpoint::Register { address: data_register },
            Endpoint::Memory { start: buffer_address },
        ),
    }
}

/// Whether a transaction is accepted: a 7-bit address, and either no data
/// or at most `MAX_TRANSFER` bytes whose last byte still has an address.
pub open spec fn accepted(address: u8, len: nat, buffer_address: u32) -> bool {
    &&& address <= MAX_ADDRESS
    &&& len == 0 || (len <= MAX_TRANSFER && buffer_address + len - 1 <= u32::MAX)
}

/// The error a refused transaction reports.
pub open spec fn refusal(address: u8) -> ConfigError {
    if address > MAX_ADDRESS {
        ConfigError::InvalidAddress
    } else {
        ConfigError::DegenerateTransfer
    }
}

/// A transaction refused before any hardware was touched, with everything
/// it was given.
#[derive(Debug)]
pub struct Refused {
    pub error: ConfigError,
    pub master: Master,
    pub channel: Channel,
    pub buffer: Vec<u8>,
}

/// The data phase of a transaction: nothing to move, or a DMA transfer.
#[derive(Debug)]
pub enum Job {
    Empty { channel: Channel, buffer: Vec<u8> },
    Data { transfer: Transfer },
}

/// A prepared or running master transaction. It holds the master, the
/// channel and the buffer until it completes.
#[derive(Debug)]
pub struct Pending {
    master: Master,
    direction: Direction,
    job: Job,
    started: bool,
    moved: usize,
}

/// What the bus reports through the master's STAT register.
#[derive(Clone, Copy, Debug, PartialEq, Eq, Structural)]
pub enum BusEvent {
    /// The master is busy on the bus.
    InProgress,
    Idle,
    RxReady,
    TxReady,
    Fault(BusFault),
}

/// Decoding of the master's STAT register: MSTPENDING (bit 0), MSTSTATE
/// (bits 1 to 3), MSTARBLOSS (bit 4) and MSTSTSTPERR (bit 6). An error flag
/// wins over the state; a state the hardware does not define reads as busy.
pub open spec fn master_event(stat: u32) -> BusEvent {
    if bit_is_set(stat, 4) {
        BusEvent::Fault(BusFault::ArbitrationLost)
    } else if bit_is_set(stat, 6) {
        BusEvent::Fault(BusFault::StartStopError)
    } else if !bit_is_set(stat, 0) {
        BusEvent::InProgress
    } else {
        let state = (stat >> 1u32) & 7u32;
        if state == 0 {
            BusEvent::Idle
        } else if state == 1 {
            BusEvent::RxReady
        } else if state == 2 {
            BusEvent::TxReady
        } else if state == 3 {
            BusEvent::Fault(BusFault::NackAddress)
        } else if state == 4 {
            BusEvent::Fault(BusFault::NackData)
        } else {
            BusEvent::InProgress
        }
    }
}

/// Reads the master's STAT register value as a bus event.
pub fn decode_master_status(stat: u32) -> (r: BusEvent)
    ensures
        r == master_event(stat),
{
    if (stat >> 4u32) & 1u32 == 1u32 {
        BusEvent::Fault(BusFault::ArbitrationLost)
    } else if (stat >> 6u32) & 1u32 == 1u32 {
        BusEvent::Fault(BusFault::StartStopError)
    } else if (stat >> 0u32) & 1u32 != 1u32 {
        BusEvent::InProgress
    } else {
        let state = (stat >> 1u32) & 7u32;
        if state == 0 {
            BusEvent::Idle
        } else if state == 1 {
            BusEvent::RxReady
        } else if state == 2 {
            BusEvent::TxReady
        } else if state == 3 {
            BusEvent::Fault(BusFault::NackAddress)
        } else if state == 4 {
            BusEvent::Fault(BusFault::NackData)
        } else {
            BusEvent::InProgress
        }
    }
}

/// Where a transaction stands after one look at the hardware.
#[derive(Clone, Copy, Debug, PartialEq, Eq, Structural)]
pub enum Progress {
    Waiting,
    Complete,
    Failed(BusFault),
}

/// Whether the bus has reached the end of a data phase in `direction`.
pub open spec fn bus_done(direction: Direction, bus: BusEvent) -> bool {
    match bus {
        BusEvent::Idle => true,
        BusEvent::TxReady => direction == Direction::Write,
        BusEvent::RxReady => direction == Direction::Read,
        _ => false,
    }
}

/// The completion rule: a transaction without data is complete at once; a
/// bus fault or a DMA abort ends it; otherwise it is complete once the DMA
/// transfer is done and the bus has finished its data phase.
pub open spec fn progress(count: nat, direction: Direction, dma: DmaStatus, bus: BusEvent) -> Progress {
    if count == 0 {
        Progress::Complete
    } else {
        match bus {
            BusEvent::Fault(f) => Progress::Failed(f),
            _ => match dma {
                DmaStatus::Aborted => Progress::Failed(BusFault::TransferAborted),
                DmaStatus::Busy => Progress::Waiting,
                DmaStatus::Done => if bus_done(direction, bus) {
                    Progress::Complete
                } else {
                    Progress::Waiting
                },
            },
        }
    }
}

/// A transaction without data is complete at the first look, whatever the
/// engine and the bus report.
pub proof fn lemma_empty_completes_at_once(direction: Direction, dma: DmaStatus, bus: BusEvent)
    ensures
        progress(0, direction, dma, bus) == Progress::Complete,
{
}

/// A transaction with data ends only in completion or in a named fault,
/// and it never completes while the engine is still moving data.
pub proof fn lemma_outcome_named(count: nat, direction: Direction, dma: DmaStatus, bus: BusEvent)
    requires
        count > 0,
    ensures
        progress(count, direction, dma, bus) == Progress::Complete ==> dma == DmaStatus::Done
            && bus_done(direction, bus),
        progress(count, direction, dma, bus) matches Progress::Failed(f) ==> bus == BusEvent::Fault(
            f,
        ) || (dma == DmaStatus::Aborted && f == BusFault::TransferAborted),
{
}

/// A transaction that completed: the master, the channel and the buffer,
/// back with the caller.
#[derive(Debug)]
pub struct Completed {
    pub master: Master,
    pub channel: Channel,
    pub buffer: Vec<u8>,
}

/// A transaction that ended in a bus fault. The master, the channel and the
/// buffer come back all the same; the channel can be used again.
#[derive(Debug)]
pub struct Failed {
    pub fault: BusFault,
    pub master: Master,
    pub channel: Channel,
    pub buffer: Vec<u8>,
}

impl Pending {
    pub closed spec fn master(&self) -> Master {
        self.master
    }

    pub closed spec fn direction(&self) -> Direction {
        self.direction
    }

    pub closed spec fn started(&self) -> bool {
        self.started
    }

    /// Bytes the data phase has moved so far.
    pub closed spec fn moved(&self) -> nat {
        self.moved as nat
    }

    /// Bytes the data phase moves in all.
    pub closed spec fn count(&self) -> nat {
        match self.job {
            Job::Empty { .. } => 0,
            Job::Data { transfer } => transfer.count as nat,
        }
    }

    pub closed spec fn buffer(&self) -> Seq<u8> {
        match self.job {
            Job::Empty { buffer, .. } => buffer@,
            Job::Data { transfer } => transfer.buffer@,
        }
    }

    pub closed spec fn channel_id(&self) -> int {
        match self.job {
            Job::Empty { channel, .. } => channel.id(),
            Job::Data { transfer } => transfer.channel_id(),
        }
    }

    /// The transfer the engine runs, where there is data.
    pub closed spec fn transfer(&self) -> Transfer
        recommends
            self.count() > 0,
    {
        match self.job {
            Job::Data { transfer } => transfer,
            Job::Empty { .. } => arbitrary(),
        }
    }

    pub closed spec fn wf(&self) -> bool {
        &&& self.moved <= self.count()
        &&& !self.started ==> self.moved == 0
        &&& match self.job {
            Job::Empty { buffer, .. } => buffer@.len() == 0,
            Job::Data { transfer } => {
                &&& transfer.wf()
                &&& transfer.width == Width::Byte
                &&& transfer.count == transfer.buffer@.len()
                &&& transfer.count > 0
            },
        }
    }

    pub fn is_started(&self) -> (r: bool)
        ensures
            r == self.started(),
    {
        self.started
    }

    /// The master's register images.
    pub fn master_registers(&self) -> (r: &Master)
        ensures
            *r == self.master(),
    {
        &self.master
    }

    /// Index of the channel that carries the data phase.
    pub fn channel_index(&self) -> (r: usize)
        ensures
            r == self.channel_id(),
            r < NUM_CHANNELS,
    {
        match &self.job {
            Job::Empty { channel, .. } => channel.index(),
            Job::Data { transfer } => transfer.channel.index(),
        }
    }

    /// Number of bytes the data phase moves.
    pub fn len(&self) -> (r: usize)
        requires
            self.wf(),
        ensures
            r == self.count(),
    {
        match &self.job {
            Job::Empty { .. } => 0,
            Job::Data { transfer } => transfer.count,
        }
    }

    /// Starts the transaction: arms the DMA transfer and requests START with
    /// DMA pacing. A transaction without data touches neither the engine nor
    /// the bus.
    pub fn start(self, channels: &mut Channels) -> (r: Pending)
        requires
            self.wf(),
            !self.started(),
            old(channels).wf(),
            old(channels).taken()[self.channel_id()],
            !old(channels).active()[self.channel_id()],
        ensures
            r.wf(),
            r.started(),
            r.direction() == self.direction(),
            r.buffer() == self.buffer(),
            r.count() == self.count(),
            r.channel_id() == self.channel_id(),
            r.moved() == 0,
            final(channels).wf(),
            final(channels).taken() == old(channels).taken(),
            final(channels).base() == old(channels).base(),
            self.count() == 0 ==> *final(channels) == *old(channels) && r.master() == self.master(),
            self.count() > 0 ==> 0 <= r.channel_id() < NUM_CHANNELS && final(channels).active()[r.channel_id()],
            self.count() > 0 ==> r.transfer() == self.transfer() && final(channels).rows() == old(channels).rows().update(self.channel_id(), self.transfer().descriptor_spec()) && final(channels).active() == old(channels).active().update(self.channel_id(), true)
                && r.master().spec_start() && r.master().spec_dma() && !r.master().spec_stop()
                && r.master().spec_mstdat() == self.master().spec_mstdat()
                && r.master().spec_data_register() == self.master().spec_data_register(),
    {
        let Pending { master, direction, job, started: _, moved } = self;
        match job {
            Job::Empty { channel, buffer } => {
                Pending { master, direction, job: Job::Empty { channel, buffer }, started: true, moved }
            },
            Job::Data { transfer } => {
                proof {
                    channels.lemma_wf();
                }
                channels.configure_and_arm(&transfer);
                let master = Master {
                    data_register: master.data_register,
                    mstdat: master.mstdat,
                    start: true,
                    dma: true,
                    stop: false,
                };
                Pending { master, direction, job: Job::Data { transfer }, started: true, moved }
            },
        }
    }

    /// One DMA request of the data phase: the next byte of a write goes to
    /// the bus (returned), or the byte the bus received is stored for a read.
    pub fn dma_request(&mut self, received: u8) -> (r: Option<u8>)
        requires
            old(self).wf(),
            old(self).started(),
            old(self).moved() < old(self).count(),
        ensures
            final(self).wf(),
            final(self).started(),
            final(self).moved() == old(self).moved() + 1,
            final(self).count() == old(self).count(),
            final(self).direction() == old(self).direction(),
            final(self).channel_id() == old(self).channel_id(),
            final(self).master() == old(self).master(),
            final(self).transfer().source == old(self).transfer().source,
            final(self).transfer().dest == old(self).transfer().dest,
            old(self).direction() == Direction::Write ==> r == Some(
                old(self).buffer()[old(self).moved() as int],
            ) && final(self).buffer() == old(self).buffer(),
            old(self).direction() == Direction::Read ==> r is None && final(self).buffer() == old(self).buffer().update(old(self).moved() as int, received),
    {
        let at = self.moved;
        let out = match &mut self.job {
            Job::Empty { .. } => None,
            Job::Data { transfer } => {
                match self.direction {
                    Direction::Write => Some(transfer.buffer[at]),
                    Direction::Read => {
                        transfer.buffer.set(at, received);
                        None
                    },
                }
            },
        };
        self.moved = at + 1;
        out
    }

    /// Looks once at the engine's and the bus's state and says where the
    /// transaction stands.
    pub fn poll(&self, dma: DmaStatus, bus: BusEvent) -> (r: Progress)
        requires
            self.wf(),
        ensures
            r == progress(self.count(), self.direction(), dma, bus),
    {
        if self.len() == 0 {
            return Progress::Complete;
        }
        match bus {
            BusEvent::Fault(f) => Progress::Failed(f),
            _ => match dma {
                DmaStatus::Aborted => Progress::Failed(BusFault::TransferAborted),
                DmaStatus::Busy => Progress::Waiting,
                DmaStatus::Done => {
                    let done = match bus {
                        BusEvent::Idle => true,
                        BusEvent::TxReady => self.direction == Direction::Write,
                        BusEvent::RxReady => self.direction == Direction::Read,
                        _ => false,
                    };
                    if done {
                        Progress::Complete
                    } else {
                        Progress::Waiting
                    }
                },
            },
        }
    }

    /// Ends a started transaction once `poll` no longer says `Waiting`: the
    /// channel is disarmed and, on completion, STOP is requested. Either
    /// way the master, the channel and the buffer come back. A transaction
    /// without data never reached the bus: it succeeds with the master
    /// exactly as it was.
    pub fn finish(self, channels: &mut Channels, outcome: Progress) -> (r: Result<Completed, Failed>)
        requires
            self.wf(),
            self.started(),
            outcome != Progress::Waiting,
            old(channels).wf(),
            self.count() > 0 ==> old(channels).active()[self.channel_id()],
        ensures
            final(channels).wf(),
            final(channels).taken() == old(channels).taken(),
            final(channels).rows() == old(channels).rows(),
            final(channels).base() == old(channels).base(),
            self.count() == 0 ==> final(channels).active() == old(channels).active(),
            self.count() > 0 ==> final(channels).active() == old(channels).active().update(
                self.channel_id(),
                false,
            ),
            self.count() == 0 ==> r is Ok && r->Ok_0.master == self.master(),
            self.count() > 0 ==> (outcome == Progress::Complete <==> r is Ok),
            r matches Ok(c) ==> c.channel.id() == self.channel_id() && c.buffer@ == self.buffer()
                && (self.count() > 0 ==> !c.master.spec_start() && !c.master.spec_dma()
                && c.master.spec_stop() && c.master.spec_mstdat() == self.master().spec_mstdat()
                && c.master.spec_data_register() == self.master().spec_data_register()),
            r matches Err(f) ==> outcome == Progress::Failed(f.fault) && f.channel.id()
                == self.channel_id() && f.buffer@ == self.buffer() && !f.master.spec_start()
                && !f.master.spec_dma() && !f.master.spec_stop() && f.master.spec_mstdat()
                == self.master().spec_mstdat() && f.master.spec_data_register()
                == self.master().spec_data_register(),
    {
        let Pending { master, direction: _, job, started: _, moved: _ } = self;
        let (channel, buffer) = match job {
            Job::Empty { channel, buffer } => {
                return Ok(Completed { master, channel, buffer });
            },
            Job::Data { transfer } => {
                channels.complete(&transfer);
                (transfer.channel, transfer.buffer)
            },
        };
        match outcome {
            Progress::Failed(fault) => {
                let master = Master {
                    data_register: master.data_register,
                    mstdat: master.mstdat,
                    start: false,
                    dma: false,
                    stop: false,
                };
                Err(Failed { fault, master, channel, buffer })
            },
            _ => {
                let master = Master {
                    data_register: master.data_register,
                    mstdat: master.mstdat,
                    start: false,
                    dma: false,
                    stop: true,
                };
                Ok(Completed { master, channel, buffer })
            },
        }
    }
}

} // verus!
