//! The DMA descriptor table: one hardware-readable row per channel.
use vstd::prelude::*;

use crate::error::ConfigError;

verus! {

/// Number of DMA channels, and so of rows in the descriptor table.
pub const NUM_CHANNELS: usize = 18;

/// Size of one descriptor row in bytes.
pub const DESCRIPTOR_BYTES: u32 = 16;

/// Alignment the DMA engine requires of the table's base address.
pub const TABLE_ALIGN: u32 = 512;

/// One channel descriptor, in the order the DMA engine reads its four words:
/// transfer configuration, source end address, destination end address, and
/// the link to the next descriptor.
#[derive(Clone, Copy, Debug, PartialEq, Eq, Structural)]
pub struct Descriptor {
    pub config: u32,
    pub source_end: u32,
    pub dest_end: u32,
    pub next: u32,
}

/// The four bytes of a word as the engine reads them from memory
/// (little-endian).
pub open spec fn word_bytes(w: u32) -> Seq<u8> {
    seq![w as u8, (w >> 8u32) as u8, (w >> 16u32) as u8, (w >> 24u32) as u8]
}

impl Descriptor {
    /// The row's binary layout.
    pub open spec fn layout(self) -> Seq<u8> {
        word_bytes(self.config) + word_bytes(self.source_end) + word_bytes(self.dest_end)
            + word_bytes(self.next)
    }

    /// A row that describes no transfer.
    pub fn empty() -> (r: Descriptor)
        ensures
            r == (Descriptor { config: 0, source_end: 0, dest_end: 0, next: 0 }),
    {
        Descriptor { config: 0, source_end: 0, dest_end: 0, next: 0 }
    }

    /// The sixteen bytes of the row, as they stand in memory.
    pub fn to_bytes(&self) -> (r: Vec<u8>)
        ensures
            r@ == self.layout(),
            r@.len() == DESCRIPTOR_BYTES,
    {
        let mut out: Vec<u8> = Vec::new();
        push_word(&mut out, self.config);
        push_word(&mut out, self.source_end);
        push_word(&mut out, self.dest_end);
        push_word(&mut out, self.next);
        proof {
            assert(out@ =~= self.layout());
        }
        out
    }
}

fn push_word(out: &mut Vec<u8>, w: u32)
    ensures
        final(out)@ == old(out)@ + word_bytes(w),
{
    out.push(w as u8);
    out.push((w >> 8u32) as u8);
    out.push((w >> 16u32) as u8);
    out.push((w >> 24u32) as u8);
    proof {
        assert(final(out)@ =~= old(out)@ + word_bytes(w));
    }
}

/// Address of row `i` of a table based at `base`.
pub open spec fn row_addr(base: u32, i: int) -> int {
    base + DESCRIPTOR_BYTES * i
}

/// The table of channel descriptors, at a fixed address for the life of the
/// process. The application creates exactly one, at start-up, and hands it
/// to the channel manager; it is never torn down. Channel handles are unique
/// per manager, so a second table (and manager) for the same engine would
/// break that uniqueness.
#[derive(Debug)]
pub struct DescriptorTable {
    base: u32,
    rows: Vec<Descriptor>,
}

impl DescriptorTable {
    /// One row per channel, an aligned base, and the whole table addressable.
    pub closed spec fn wf(&self) -> bool {
        &&& self.rows@.len() == NUM_CHANNELS
        &&& self.base % TABLE_ALIGN == 0
        &&& self.base + NUM_CHANNELS * DESCRIPTOR_BYTES <= u32::MAX + 1
    }

    /// A well-formed table has one row per channel.
    pub proof fn lemma_wf(&self)
        requires
            self.wf(),
        ensures
            self.rows().len() == NUM_CHANNELS,
    {
    }

    pub closed spec fn spec_base(&self) -> u32 {
        self.base
    }

    pub closed spec fn rows(&self) -> Seq<Descriptor> {
        self.rows@
    }

    /// Creates the table at `base`, all rows empty. Fails with
    /// `MisalignedTable` where `base` is not aligned or the table would run
    /// past the end of the address space.
    pub fn new(base: u32) -> (r: Result<DescriptorTable, ConfigError>)
        ensures
            r is Ok <==> (base % TABLE_ALIGN == 0 && base + NUM_CHANNELS * DESCRIPTOR_BYTES
                <= u32::MAX + 1),
            r is Err ==> r->Err_0 == ConfigError::MisalignedTable,
            r matches Ok(t) ==> t.wf() && t.spec_base() == base && t.rows() == Seq::new(
                NUM_CHANNELS as nat,
                |i: int| Descriptor { config: 0, source_end: 0, dest_end: 0, next: 0 },
            ),
    {
        if base % TABLE_ALIGN != 0 || base > u32::MAX - (NUM_CHANNELS as u32) * DESCRIPTOR_BYTES
            + 1 {
            return Err(ConfigError::MisalignedTable);
        }
        let mut rows: Vec<Descriptor> = Vec::new();
        let mut i: usize = 0;
        while i < NUM_CHANNELS
            invariant
                i <= NUM_CHANNELS,
                rows@ == Seq::new(
                    i as nat,
                    |k: int| Descriptor { config: 0, source_end: 0, dest_end: 0, next: 0 },
                ),
            decreases NUM_CHANNELS - i,
        {
            rows.push(Descriptor::empty());
            i = i + 1;
            proof {
                assert(rows@ =~= Seq::new(
                    i as nat,
                    |k: int| Descriptor { config: 0, source_end: 0, dest_end: 0, next: 0 },
                ));
            }
        }
        Ok(DescriptorTable { base, rows })
    }

    /// The base address the DMA engine is given.
    pub fn base(&self) -> (r: u32)
        ensures
            r == self.spec_base(),
    {
        self.base
    }

    /// Address of the row that belongs to channel `i`.
    pub fn row_address(&self, i: usize) -> (r: u32)
        requires
            self.wf(),
            i < NUM_CHANNELS,
        ensures
            r == row_addr(self.spec_base(), i as int),
    {
        self.base + DESCRIPTOR_BYTES * (i as u32)
    }

    /// The row that belongs to channel `i`.
    pub fn row(&self, i: usize) -> (r: Descriptor)
        requires
            self.wf(),
            i < NUM_CHANNELS,
        ensures
            r == self.rows()[i as int],
    {
        self.rows[i]
    }

    /// Replaces row `i`; every other row, and the base, stay as they were.
    pub(crate) fn set_row(&mut self, i: usize, d: Descriptor)
        requires
            old(self).wf(),
            i < NUM_CHANNELS,
        ensures
            final(self).wf(),
            final(self).spec_base() == old(self).spec_base(),
            final(self).rows() == old(self).rows().update(i as int, d),
    {
        self.rows.set(i, d);
    }
}

/// Rows of distinct channels occupy disjoint byte ranges of the table.
pub proof fn lemma_rows_disjoint(base: u32, i: int, j: int)
    requires
        0 <= i < NUM_CHANNELS,
        0 <= j < NUM_CHANNELS,
        i != j,
    ensures
        row_addr(base, i) + DESCRIPTOR_BYTES <= row_addr(base, j) || row_addr(base, j)
            + DESCRIPTOR_BYTES <= row_addr(base, i),
{
}

} // verus!
