//! The DMA controller: its handle, the channel manager that grants channel
//! handles, and the transfers that run on them.
use vstd::prelude::*;

use crate::descriptors::{
    lemma_rows_disjoint, row_addr, Descriptor, DescriptorTable, DESCRIPTOR_BYTES, NUM_CHANNELS,
};
use crate::error::ConfigError;
use crate::syscon::{self, bit_is_set, Peripheral};

verus! {

/// Largest number of elements one descriptor can move.
pub const MAX_TRANSFER: usize = 1024;

/// Handle to the DMA controller: the images of its SRAMBASE and CTRL
/// registers.
#[derive(Debug)]
pub struct Handle {
    enabled: bool,
    srambase: u32,
    srambase_written: u32,
}

impl Handle {
    pub closed spec fn spec_enabled(&self) -> bool {
        self.enabled
    }

    /// The table address this handle gives the engine.
    pub closed spec fn spec_srambase(&self) -> u32 {
        self.srambase
    }

    /// The value last written to the SRAMBASE register (zero before).
    pub closed spec fn spec_srambase_register(&self) -> u32 {
        self.srambase_written
    }

    pub fn new(srambase: u32) -> (r: Handle)
        ensures
            !r.spec_enabled(),
            r.spec_srambase() == srambase,
            r.spec_srambase_register() == 0,
    {
        Handle { enabled: false, srambase, srambase_written: 0 }
    }

    pub fn is_enabled(&self) -> (r: bool)
        ensures
            r == self.spec_enabled(),
    {
        self.enabled
    }

    /// The SRAMBASE register's value.
    pub fn srambase_register(&self) -> (r: u32)
        ensures
            r == self.spec_srambase_register(),
    {
        self.srambase_written
    }

    /// Enables the DMA controller: its clock, the descriptor table address,
    /// and the engine. A controller that is already enabled is left as it is
    /// and the call fails with `AlreadyEnabled`.
    pub fn enable(&mut self, syscon: &mut syscon::Api) -> (r: Result<(), ConfigError>)
        ensures
            old(self).spec_enabled() ==> r == Err::<(), ConfigError>(ConfigError::AlreadyEnabled)
                && *final(self) == *old(self) && *final(syscon) == *old(syscon),
            !old(self).spec_enabled() ==> r is Ok && final(self).spec_enabled()
                && final(self).spec_srambase() == old(self).spec_srambase()
                && final(self).spec_srambase_register() == old(self).spec_srambase()
                && final(syscon).sysahbclkctrl == syscon::with_bit(
                old(syscon).sysahbclkctrl,
                29,
            ) && syscon::bit_is_set(final(syscon).sysahbclkctrl, 29) && final(syscon).presetctrl
                == old(syscon).presetctrl && final(syscon).pdruncfg == old(syscon).pdruncfg
                && final(syscon).uartclkdiv == old(syscon).uartclkdiv && final(syscon).uartfrgmult
                == old(syscon).uartfrgmult && final(syscon).uartfrgdiv == old(syscon).uartfrgdiv,
    {
        if self.enabled {
            return Err(ConfigError::AlreadyEnabled);
        }
        syscon.enable_clock(&Peripheral::Dma);
        proof {
            syscon::lemma_enable_clock_sets_only_its_bit(old(syscon).sysahbclkctrl, 29);
        }
        self.srambase_written = self.srambase;
        self.enabled = true;
        Ok(())
    }

    /// Disables the DMA controller by gating its clock. A controller that is
    /// not enabled is left as it is and the call fails with `NotEnabled`.
    pub fn disable(&mut self, syscon: &mut syscon::Api) -> (r: Result<(), ConfigError>)
        ensures
            !old(self).spec_enabled() ==> r == Err::<(), ConfigError>(ConfigError::NotEnabled)
                && *final(self) == *old(self) && *final(syscon) == *old(syscon),
            old(self).spec_enabled() ==> r is Ok && !final(self).spec_enabled()
                && final(self).spec_srambase() == old(self).spec_srambase()
                && final(self).spec_srambase_register() == old(self).spec_srambase_register()
                && final(syscon).sysahbclkctrl == syscon::without_bit(
                old(syscon).sysahbclkctrl,
                29,
            ) && final(syscon).presetctrl == old(syscon).presetctrl && final(syscon).pdruncfg
                == old(syscon).pdruncfg && final(syscon).uartclkdiv == old(syscon).uartclkdiv
                && final(syscon).uartfrgmult == old(syscon).uartfrgmult && final(syscon).uartfrgdiv
                == old(syscon).uartfrgdiv,
    {
        if !self.enabled {
            return Err(ConfigError::NotEnabled);
        }
        syscon.disable_clock(&Peripheral::Dma);
        self.enabled = false;
        Ok(())
    }
}

/// The unique handle to one DMA channel. Only the channel manager makes
/// them, and it makes at most one per channel at a time.
#[derive(Debug)]
pub struct Channel {
    index: usize,
}

impl Channel {
    #[verifier::type_invariant]
    pub closed spec fn in_range(&self) -> bool {
        self.index < NUM_CHANNELS
    }

    pub closed spec fn id(&self) -> int {
        self.index as int
    }

    pub fn index(&self) -> (r: usize)
        ensures
            r == self.id(),
            r < NUM_CHANNELS,
    {
        proof {
            use_type_invariant(self);
        }
        self.index
    }
}

/// The channel manager: the descriptor table and which channels are held
/// and armed.
#[derive(Debug)]
pub struct Channels {
    table: DescriptorTable,
    taken: Vec<bool>,
    active: Vec<bool>,
}

impl Channels {
    pub closed spec fn wf(&self) -> bool {
        &&& self.table.wf()
        &&& self.taken@.len() == NUM_CHANNELS
        &&& self.active@.len() == NUM_CHANNELS
        &&& forall|i: int| 0 <= i < NUM_CHANNELS && self.active@[i] ==> self.taken@[i]
    }

    /// A well-formed manager has one entry per channel, and only held
    /// channels are armed.
    pub proof fn lemma_wf(&self)
        requires
            self.wf(),
        ensures
            self.taken().len() == NUM_CHANNELS,
            self.active().len() == NUM_CHANNELS,
            self.rows().len() == NUM_CHANNELS,
            forall|i: int| 0 <= i < NUM_CHANNELS && #[trigger] self.active()[i] ==> self.taken()[i],
    {
        self.table.lemma_wf();
    }

    /// Which channels have a live handle.
    pub closed spec fn taken(&self) -> Seq<bool> {
        self.taken@
    }

    /// Which channels are armed.
    pub closed spec fn active(&self) -> Seq<bool> {
        self.active@
    }

    /// The descriptor rows.
    pub closed spec fn rows(&self) -> Seq<Descriptor> {
        self.table.rows()
    }

    pub closed spec fn base(&self) -> u32 {
        self.table.spec_base()
    }

    /// Takes over the descriptor table; no channel is held or armed.
    pub fn new(table: DescriptorTable) -> (r: Channels)
        requires
            table.wf(),
        ensures
            r.wf(),
            r.taken() == Seq::new(NUM_CHANNELS as nat, |i: int| false),
            r.active() == Seq::new(NUM_CHANNELS as nat, |i: int| false),
            r.rows() == table.rows(),
            r.base() == table.spec_base(),
    {
        let mut taken: Vec<bool> = Vec::new();
        let mut active: Vec<bool> = Vec::new();
        let mut i: usize = 0;
        while i < NUM_CHANNELS
            invariant
                i <= NUM_CHANNELS,
                taken@ == Seq::new(i as nat, |k: int| false),
                active@ == Seq::new(i as nat, |k: int| false),
            decreases NUM_CHANNELS - i,
        {
            taken.push(false);
            active.push(false);
            i = i + 1;
            proof {
                assert(taken@ =~= Seq::new(i as nat, |k: int| false));
                assert(active@ =~= Seq::new(i as nat, |k: int| false));
            }
        }
        Channels { table, taken, active }
    }

    /// Gives the descriptor table back.
    pub fn into_table(self) -> (r: DescriptorTable)
        requires
            self.wf(),
        ensures
            r.wf(),
            r.rows() == self.rows(),
            r.spec_base() == self.base(),
    {
        self.table
    }

    /// Address of the descriptor row of the channel with index `id`.
    pub fn descriptor_address(&self, id: usize) -> (r: u32)
        requires
            self.wf(),
            id < NUM_CHANNELS,
        ensures
            r == row_addr(self.base(), id as int),
    {
        self.table.row_address(id)
    }

    /// The descriptor row of the channel with index `id`.
    pub fn descriptor(&self, id: usize) -> (r: Descriptor)
        requires
            self.wf(),
            id < NUM_CHANNELS,
        ensures
            r == self.rows()[id as int],
    {
        self.table.row(id)
    }

    /// Whether the channel with index `id` is held.
    pub fn is_taken(&self, id: usize) -> (r: bool)
        requires
            self.wf(),
            id < NUM_CHANNELS,
        ensures
            r == self.taken()[id as int],
    {
        self.taken[id]
    }

    /// Whether the channel with index `id` is armed.
    pub fn is_armed(&self, id: usize) -> (r: bool)
        requires
            self.wf(),
            id < NUM_CHANNELS,
        ensures
            r == self.active()[id as int],
    {
        self.active[id]
    }

    /// Hands out the handle of channel `id`. Fails with `NoSuchChannel` past
    /// the last channel and with `ChannelTaken` while a handle to it is live;
    /// the manager is unchanged then.
    pub fn take(&mut self, id: usize) -> (r: Result<Channel, ConfigError>)
        requires
            old(self).wf(),
        ensures
            final(self).wf(),
            id >= NUM_CHANNELS ==> r == Err::<Channel, ConfigError>(ConfigError::NoSuchChannel)
                && *final(self) == *old(self),
            id < NUM_CHANNELS && old(self).taken()[id as int] ==> r == Err::<
                Channel,
                ConfigError,
            >(ConfigError::ChannelTaken) && *final(self) == *old(self),
            id < NUM_CHANNELS && !old(self).taken()[id as int] ==> r is Ok && r->Ok_0.id()
                == id && final(self).taken() == old(self).taken().update(id as int, true)
                && final(self).active() == old(self).active() && final(self).rows() == old(
                self,
            ).rows() && final(self).base() == old(self).base(),
    {
        if id >= NUM_CHANNELS {
            return Err(ConfigError::NoSuchChannel);
        }
        if self.taken[id] {
            return Err(ConfigError::ChannelTaken);
        }
        self.taken.set(id, true);
        Ok(Channel { index: id })
    }

    /// Returns a channel handle to the pool; the channel can be taken again.
    pub fn give_back(&mut self, channel: Channel)
        requires
            old(self).wf(),
            0 <= channel.id() < NUM_CHANNELS,
            old(self).taken()[channel.id()],
            !old(self).active()[channel.id()],
        ensures
            final(self).wf(),
            final(self).taken() == old(self).taken().update(channel.id(), false),
            final(self).active() == old(self).active(),
            final(self).rows() == old(self).rows(),
            final(self).base() == old(self).base(),
    {
        self.taken.set(channel.index, false);
    }

    /// Writes the transfer's descriptor into its channel's row and starts it.
    /// The transfer, buffer and channel handle included, stays with the
    /// caller until `complete`; the channel is marked armed meanwhile.
    pub fn configure_and_arm(&mut self, transfer: &Transfer)
        requires
            old(self).wf(),
            transfer.wf(),
            old(self).taken()[transfer.channel_id()],
            !old(self).active()[transfer.channel_id()],
        ensures
            final(self).wf(),
            final(self).rows() == old(self).rows().update(
                transfer.channel_id(),
                transfer.descriptor_spec(),
            ),
            final(self).active() == old(self).active().update(transfer.channel_id(), true),
            final(self).taken() == old(self).taken(),
            final(self).base() == old(self).base(),
    {
        let d = transfer.descriptor();
        let id = transfer.channel.index();
        self.table.set_row(id, d);
        self.active.set(id, true);
    }

    /// Whether an armed transfer has finished, from the engine's ACTIVE and
    /// ERRINT registers: the error bit of its channel wins, else it is done
    /// once its active bit has cleared.
    pub fn poll(&self, transfer: &Transfer, active_reg: u32, error_reg: u32) -> (r: DmaStatus)
        requires
            transfer.wf(),
        ensures
            r == dma_status(transfer.channel_id() as u32, active_reg, error_reg),
    {
        decode_dma_status(transfer.channel.index(), active_reg, error_reg)
    }

    /// Takes a finished (or aborted) transfer off its channel. The channel
    /// is no longer armed; its handle, with the buffer, is the caller's to
    /// use again.
    pub fn complete(&mut self, transfer: &Transfer)
        requires
            old(self).wf(),
            transfer.wf(),
        ensures
            final(self).wf(),
            final(self).active() == old(self).active().update(transfer.channel_id(), false),
            final(self).taken() == old(self).taken(),
            final(self).rows() == old(self).rows(),
            final(self).base() == old(self).base(),
    {
        let id = transfer.channel.index();
        self.active.set(id, false);
    }
}

/// Two distinct free channels can both be taken, one after the other: the
/// second is still free once the first is taken. Their descriptor rows do
/// not overlap.
pub proof fn lemma_distinct_channels_both_granted(taken: Seq<bool>, base: u32, i: int, j: int)
    requires
        taken.len() == NUM_CHANNELS,
        0 <= i < NUM_CHANNELS,
        0 <= j < NUM_CHANNELS,
        i != j,
        !taken[i],
        !taken[j],
    ensures
        !taken.update(i, true)[j],
        taken.update(i, true).update(j, true)[i],
        taken.update(i, true).update(j, true)[j],
        row_addr(base, i) + DESCRIPTOR_BYTES <= row_addr(base, j) || row_addr(base, j)
            + DESCRIPTOR_BYTES <= row_addr(base, i),
{
    lemma_rows_disjoint(base, i, j);
}

/// Once a channel is taken, taking it again is refused until it is given
/// back; after that it can be taken again.
pub proof fn lemma_taken_channel_refused(taken: Seq<bool>, i: int)
    requires
        taken.len() == NUM_CHANNELS,
        0 <= i < NUM_CHANNELS,
    ensures
        taken.update(i, true)[i],
        !taken.update(i, true).update(i, false)[i],
{
}

/// What the engine reports of an armed transfer.
#[derive(Clone, Copy, Debug, PartialEq, Eq, Structural)]
pub enum DmaStatus {
    Busy,
    Done,
    Aborted,
}

pub open spec fn dma_status(bit: u32, active_reg: u32, error_reg: u32) -> DmaStatus {
    if bit_is_set(error_reg, bit) {
        DmaStatus::Aborted
    } else if bit_is_set(active_reg, bit) {
        DmaStatus::Busy
    } else {
        DmaStatus::Done
    }
}

/// Reads the engine's ACTIVE0 and ERRINT0 register values for the channel
/// with index `channel`.
pub fn decode_dma_status(channel: usize, active_reg: u32, error_reg: u32) -> (r: DmaStatus)
    requires
        channel < NUM_CHANNELS,
    ensures
        r == dma_status(channel as u32, active_reg, error_reg),
{
    let bit = channel as u32;
    if (error_reg >> bit) & 1u32 == 1u32 {
        DmaStatus::Aborted
    } else if (active_reg >> bit) & 1u32 == 1u32 {
        DmaStatus::Busy
    } else {
        DmaStatus::Done
    }
}

/// Width of one element a transfer moves.
#[derive(Clone, Copy, Debug, PartialEq, Eq, Structural)]
pub enum Width {
    Byte,
    HalfWord,
    Word,
}

impl Width {
    pub open spec fn bytes_spec(self) -> nat {
        match self {
            Width::Byte => 1,
            Width::HalfWord => 2,
            Width::Word => 4,
        }
    }

    /// The WIDTH field of the transfer configuration.
    pub open spec fn code_spec(self) -> nat {
        match self {
            Width::Byte => 0,
            Width::HalfWord => 1,
            Width::Word => 2,
        }
    }

    pub fn bytes(self) -> (r: u32)
        ensures
            r == self.bytes_spec(),
    {
        match self {
            Width::Byte => 1,
            Width::HalfWord => 2,
            Width::Word => 4,
        }
    }

    pub fn code(self) -> (r: u32)
        ensures
            r == self.code_spec(),
    {
        match self {
            Width::Byte => 0,
            Width::HalfWord => 1,
            Width::Word => 2,
        }
    }
}

/// One end of a transfer: a buffer in memory, walked element by element, or a
/// peripheral data register, read or written in place.
#[derive(Clone, Copy, Debug, PartialEq, Eq, Structural)]
pub enum Endpoint {
    Memory { start: u32 },
    Register { address: u32 },
}

/// Address of the last element a transfer touches at one end.
pub open spec fn end_address(e: Endpoint, count: nat, width: Width) -> int {
    match e {
        Endpoint::Memory { start } => start + (count - 1) * width.bytes_spec(),
        Endpoint::Register { address } => address as int,
    }
}

/// The increment field for one end: one element for memory, none for a
/// register.
pub open spec fn increment_code(e: Endpoint) -> nat {
    match e {
        Endpoint::Memory { .. } => 1,
        Endpoint::Register { .. } => 0,
    }
}

/// The transfer configuration word: valid, clear trigger when exhausted,
/// element width, source and destination increments, and the element count
/// less one.
pub open spec fn config_word(source: Endpoint, dest: Endpoint, count: nat, width: Width) -> int {
    1 + 8 + width.code_spec() * 0x100 + increment_code(source) * 0x1000 + increment_code(dest)
        * 0x4000 + (count - 1) * 0x10000
}

/// A transfer the engine can perform: one to `MAX_TRANSFER` elements, one
/// end in memory, and neither end running past the address space.
pub open spec fn valid_transfer(source: Endpoint, dest: Endpoint, count: nat, width: Width) -> bool {
    &&& 1 <= count <= MAX_TRANSFER
    &&& end_address(source, count, width) <= u32::MAX
    &&& end_address(dest, count, width) <= u32::MAX
}

/// Checks a transfer before any hardware is touched: `DegenerateTransfer`
/// where the engine could not perform it.
pub fn check_transfer(source: Endpoint, dest: Endpoint, count: usize, width: Width) -> (r: Result<
    (),
    ConfigError,
>)
    ensures
        r is Ok <==> valid_transfer(source, dest, count as nat, width),
        r is Err ==> r->Err_0 == ConfigError::DegenerateTransfer,
{
    if count == 0 || count > MAX_TRANSFER {
        return Err(ConfigError::DegenerateTransfer);
    }
    if !end_fits(source, count as u32, width) || !end_fits(dest, count as u32, width) {
        return Err(ConfigError::DegenerateTransfer);
    }
    Ok(())
}

fn end_fits(e: Endpoint, count: u32, width: Width) -> (r: bool)
    requires
        1 <= count <= MAX_TRANSFER,
    ensures
        r == (end_address(e, count as nat, width) <= u32::MAX),
{
    match e {
        Endpoint::Memory { start } => {
            let span = (count - 1) * width.bytes();
            start <= u32::MAX - span
        },
        Endpoint::Register { .. } => true,
    }
}

fn end_of(e: Endpoint, count: u32, width: Width) -> (r: u32)
    requires
        1 <= count <= MAX_TRANSFER,
        end_address(e, count as nat, width) <= u32::MAX,
    ensures
        r == end_address(e, count as nat, width),
{
    match e {
        Endpoint::Memory { start } => start + (count - 1) * width.bytes(),
        Endpoint::Register { address } => address,
    }
}

fn increment_of(e: Endpoint) -> (r: u32)
    ensures
        r == increment_code(e),
{
    match e {
        Endpoint::Memory { .. } => 1,
        Endpoint::Register { .. } => 0,
    }
}

/// One DMA-driven copy. The buffer moves into the transfer when it is made
/// and back to the caller when it completes; nothing else holds it meanwhile.
#[derive(Debug)]
pub struct Transfer {
    pub channel: Channel,
    pub buffer: Vec<u8>,
    pub source: Endpoint,
    pub dest: Endpoint,
    pub count: usize,
    pub width: Width,
}

impl Transfer {
    pub open spec fn channel_id(&self) -> int {
        self.channel.id()
    }

    /// A valid transfer on an existing channel, its elements inside its
    /// buffer.
    pub open spec fn wf(&self) -> bool {
        &&& 0 <= self.channel_id() < NUM_CHANNELS
        &&& valid_transfer(self.source, self.dest, self.count as nat, self.width)
        &&& self.count * self.width.bytes_spec() <= self.buffer@.len()
    }

    /// The descriptor the engine runs this transfer from.
    pub open spec fn descriptor_spec(&self) -> Descriptor {
        Descriptor {
            config: config_word(self.source, self.dest, self.count as nat, self.width) as u32,
            source_end: end_address(self.source, self.count as nat, self.width) as u32,
            dest_end: end_address(self.dest, self.count as nat, self.width) as u32,
            next: 0,
        }
    }

    /// Builds a transfer of `count` elements of `width` from `source` to
    /// `dest` on `channel`, taking `buffer` over.
    pub fn new(
        channel: Channel,
        buffer: Vec<u8>,
        source: Endpoint,
        dest: Endpoint,
        count: usize,
        width: Width,
    ) -> (r: Transfer)
        requires
            valid_transfer(source, dest, count as nat, width),
            count * width.bytes_spec() <= buffer@.len(),
        ensures
            r.wf(),
            r.channel == channel,
            r.buffer == buffer,
            r.source == source,
            r.dest == dest,
            r.count == count,
            r.width == width,
    {
        proof {
            use_type_invariant(&channel);
        }
        Transfer { channel, buffer, source, dest, count, width }
    }

    /// The descriptor row for this transfer.
    pub fn descriptor(&self) -> (r: Descriptor)
        requires
            self.wf(),
        ensures
            r == self.descriptor_spec(),
    {
        let count = self.count as u32;
        let config = 1u32 + 8u32 + self.width.code() * 0x100u32 + increment_of(self.source)
            * 0x1000u32 + increment_of(self.dest) * 0x4000u32 + (count - 1) * 0x10000u32;
        Descriptor {
            config,
            source_end: end_of(self.source, count, self.width),
            dest_end: end_of(self.dest, count, self.width),
            next: 0,
        }
    }
}

/// Entry point to the DMA API: the controller's handle and the channels.
#[derive(Debug)]
pub struct DMA {
    pub handle: Handle,
    pub channels: Channels,
}

impl DMA {
    /// Takes over the descriptor table, created once at start-up. The
    /// controller starts disabled and no channel is held.
    pub fn new(table: DescriptorTable) -> (r: DMA)
        requires
            table.wf(),
        ensures
            !r.handle.spec_enabled(),
            r.handle.spec_srambase() == table.spec_base(),
            r.handle.spec_srambase_register() == 0,
            r.channels.wf(),
            r.channels.taken() == Seq::new(NUM_CHANNELS as nat, |i: int| false),
            r.channels.active() == Seq::new(NUM_CHANNELS as nat, |i: int| false),
            r.channels.rows() == table.rows(),
            r.channels.base() == table.spec_base(),
    {
        let srambase = table.base();
        DMA { handle: Handle::new(srambase), channels: Channels::new(table) }
    }

    /// Gives up the API and returns the descriptor table it was made from.
    pub fn free(self) -> (r: DescriptorTable)
        requires
            self.channels.wf(),
        ensures
            r.wf(),
            r.rows() == self.channels.rows(),
            r.spec_base() == self.channels.base(),
    {
        self.channels.into_table()
    }
}

} // verus!
