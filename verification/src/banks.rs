//! The data a VGM's `0x67` blocks carry, and what happens to each kind.
//!
//! - **`0x00`–`0x3F`**: a stream of samples for the DAC engine, addressed by
//!   block index within its type.
//! - **`0x40`–`0x7E`**: the same, compressed; `0x7F` is the shared table the
//!   compressed blocks decode against.
//! - **`0x80`–`0xBF`**: a piece of a chip's ROM, handed to the chip.
//! - **`0xC0` and up**: a RAM write, also handed over.
//!
//! Only the streams need storing, which is what [`Banks`] does.

use vstd::prelude::*;

verus! {

/// The highest type byte that is an uncompressed sample stream.
pub const UNCOMPRESSED_MAX: u8 = 0x3F;

/// The type byte carrying the shared decompression table.
pub const DECOMPRESSION_TABLE: u8 = 0x7F;

/// The first type byte that is a ROM image rather than a sample stream.
pub const ROM_MIN: u8 = 0x80;

/// What a data block is for.
#[derive(Debug, Clone, Copy, PartialEq, Eq, Structural)]
pub enum BlockKind {
    /// A sample stream the DAC engine plays back, uncompressed.
    Stream,
    /// The same, needing decompression first.
    CompressedStream,
    /// The shared table compressed blocks decode against.
    DecompressionTable,
    /// A piece of a chip's ROM: `{u32 total_size, u32 start, data}`.
    Rom,
    /// A write into a chip's RAM.
    Ram,
}

/// The kind a type byte names.
pub open spec fn kind_of(kind: u8) -> BlockKind {
    if kind <= UNCOMPRESSED_MAX {
        BlockKind::Stream
    } else if kind == DECOMPRESSION_TABLE {
        BlockKind::DecompressionTable
    } else if kind <= 0x7E {
        BlockKind::CompressedStream
    } else if kind <= 0xBF {
        BlockKind::Rom
    } else {
        BlockKind::Ram
    }
}

impl BlockKind {
    /// What type byte `kind` means.
    pub fn of(kind: u8) -> (k: BlockKind)
        ensures
            k == kind_of(kind),
    {
        if kind <= UNCOMPRESSED_MAX {
            BlockKind::Stream
        } else if kind == DECOMPRESSION_TABLE {
            BlockKind::DecompressionTable
        } else if kind <= 0x7E {
            BlockKind::CompressedStream
        } else if kind <= 0xBF {
            BlockKind::Rom
        } else {
            BlockKind::Ram
        }
    }

    /// The uncompressed type a compressed block decodes to: `0x40` is a
    /// compressed `0x00`, `0x41` a compressed `0x01`, and so on; every other
    /// type is already itself.
    pub fn uncompressed_type(kind: u8) -> (t: u8)
        ensures
            t == if 0x40 <= kind <= 0x7E {
                (kind - 0x40) as u8
            } else {
                kind
            },
    {
        if kind >= 0x40 && kind <= 0x7E {
            kind - 0x40
        } else {
            kind
        }
    }
}

/// A `0x80`-range ROM block's header, once split from its payload.
#[derive(Debug, Clone, Copy, PartialEq, Eq, Structural)]
pub struct RomBlock {
    /// The whole image's size, which every piece repeats.
    pub total_size: u32,
    /// Where this piece belongs in it.
    pub start: u32,
}

/// A `0xC0`-range RAM write's header.
#[derive(Debug, Clone, Copy, PartialEq, Eq, Structural)]
pub struct RamBlock {
    /// Where the payload goes: two bytes for the `0xC0`-`0xDF` chips, four
    /// for `0xE0` and up.
    pub offset: u32,
}

/// Why a data block could not be read.
#[derive(Debug, Clone, Copy, PartialEq, Eq, Structural)]
pub enum BlockError {
    /// A ROM block shorter than its eight header bytes.
    RomHeaderTooShort,
    /// A RAM block shorter than its offset field.
    RamHeaderTooShort,
}

/// The little-endian value of `bytes[at..at + 4]`.
pub open spec fn le32(bytes: Seq<u8>, at: int) -> u32 {
    (bytes[at] as int + bytes[at + 1] as int * 0x100 + bytes[at + 2] as int * 0x1_0000
        + bytes[at + 3] as int * 0x100_0000) as u32
}

/// The little-endian value of `bytes[at..at + 2]`.
pub open spec fn le16(bytes: Seq<u8>, at: int) -> u32 {
    (bytes[at] as int + bytes[at + 1] as int * 0x100) as u32
}

fn read_le32(bytes: &[u8], at: usize) -> (v: u32)
    requires
        at + 4 <= bytes@.len(),
    ensures
        v == le32(bytes@, at as int),
{
    let b0 = bytes[at] as u32;
    let b1 = bytes[at + 1] as u32;
    let b2 = bytes[at + 2] as u32;
    let b3 = bytes[at + 3] as u32;
    b0 + b1 * 0x100 + b2 * 0x1_0000 + b3 * 0x100_0000
}

fn read_le16(bytes: &[u8], at: usize) -> (v: u32)
    requires
        at + 2 <= bytes@.len(),
    ensures
        v == le16(bytes@, at as int),
{
    let b0 = bytes[at] as u32;
    let b1 = bytes[at + 1] as u32;
    b0 + b1 * 0x100
}

fn tail(bytes: &[u8], from: usize) -> (t: &[u8])
    requires
        from <= bytes@.len(),
    ensures
        t@ == bytes@.subrange(from as int, bytes@.len() as int),
{
    vstd::slice::slice_subrange(bytes, from, bytes.len())
}

/// Reads a ROM block's `{u32 total_size, u32 start}` header and returns it
/// with the piece that follows.
pub fn rom_header(payload: &[u8]) -> (r: Result<(RomBlock, &[u8]), BlockError>)
    ensures
        payload@.len() < 8 <==> r is Err,
        r matches Err(e) ==> e == BlockError::RomHeaderTooShort,
        r matches Ok((block, data)) ==> {
            &&& block.total_size == le32(payload@, 0)
            &&& block.start == le32(payload@, 4)
            &&& data@ == payload@.subrange(8, payload@.len() as int)
        },
{
    if payload.len() < 8 {
        return Err(BlockError::RomHeaderTooShort);
    }
    let total_size = read_le32(payload, 0);
    let start = read_le32(payload, 4);
    Ok((RomBlock { total_size, start }, tail(payload, 8)))
}

/// Reads a RAM write's offset header, two bytes below type `0xE0` and four
/// from it up, and returns it with the payload that follows.
pub fn ram_header(kind: u8, payload: &[u8]) -> (r: Result<(RamBlock, &[u8]), BlockError>)
    ensures
        payload@.len() < (if kind >= 0xE0 { 4int } else { 2int }) <==> r is Err,
        r matches Err(e) ==> e == BlockError::RamHeaderTooShort,
        r matches Ok((block, data)) ==> if kind >= 0xE0 {
            &&& block.offset == le32(payload@, 0)
            &&& data@ == payload@.subrange(4, payload@.len() as int)
        } else {
            &&& block.offset == le16(payload@, 0)
            &&& data@ == payload@.subrange(2, payload@.len() as int)
        },
{
    let width: usize = if kind >= 0xE0 { 4 } else { 2 };
    if payload.len() < width {
        return Err(BlockError::RamHeaderTooShort);
    }
    let offset = if width == 2 { read_le16(payload, 0) } else { read_le32(payload, 0) };
    Ok((RamBlock { offset }, tail(payload, width)))
}

/// The payloads of the blocks of type `kind` in `blocks`, in arrival order.
pub open spec fn of_kind(blocks: Seq<(u8, Seq<u8>)>, kind: u8) -> Seq<Seq<u8>>
    decreases blocks.len(),
{
    if blocks.len() == 0 {
        Seq::empty()
    } else {
        let rest = of_kind(blocks.drop_last(), kind);
        if blocks.last().0 == kind {
            rest.push(blocks.last().1)
        } else {
            rest
        }
    }
}

/// The payloads in `payloads`, end to end.
pub open spec fn joined(payloads: Seq<Seq<u8>>) -> Seq<u8>
    decreases payloads.len(),
{
    if payloads.len() == 0 {
        Seq::empty()
    } else {
        joined(payloads.drop_last()) + payloads.last()
    }
}

/// What [`Banks::nth`] reads back of [`Banks::push`]: a stored block becomes
/// the last of its type, so it is read at the index the earlier blocks of its
/// type fill, and the concatenated bank of its type grows by exactly its
/// payload; every other type's blocks stay as they were.
pub proof fn lemma_push_reads_back(stored: Seq<(u8, Seq<u8>)>, kind: u8, data: Seq<u8>, other: u8)
    ensures
        of_kind(stored.push((kind, data)), kind) == of_kind(stored, kind).push(data),
        of_kind(stored.push((kind, data)), kind)[of_kind(stored, kind).len() as int] == data,
        joined(of_kind(stored.push((kind, data)), kind)) == joined(of_kind(stored, kind)) + data,
        other != kind ==> of_kind(stored.push((kind, data)), other) == of_kind(stored, other),
{
    assert(stored.push((kind, data)).drop_last() =~= stored);
    assert(of_kind(stored, kind).push(data).drop_last() =~= of_kind(stored, kind));
}

/// The sample streams a file has handed over, kept by type and arrival order.
#[derive(Debug, Clone)]
pub struct Banks {
    /// `(uncompressed type, payload)`, in arrival order.
    pub blocks: Vec<(u8, Vec<u8>)>,
}

impl Banks {
    /// The stored blocks as `(type, payload)` values, in arrival order.
    pub open spec fn stored(self) -> Seq<(u8, Seq<u8>)> {
        self.blocks@.map_values(|b: (u8, Vec<u8>)| (b.0, b.1@))
    }

    /// No blocks at all.
    pub fn new() -> (b: Banks)
        ensures
            b.stored() == Seq::<(u8, Seq<u8>)>::empty(),
    {
        let b = Banks { blocks: Vec::new() };
        assert(b.stored() =~= Seq::<(u8, Seq<u8>)>::empty());
        b
    }

    /// Stores a decoded sample stream of (uncompressed) type `kind`.
    pub fn push(&mut self, kind: u8, data: Vec<u8>)
        ensures
            final(self).stored() == old(self).stored().push((kind, data@)),
    {
        self.blocks.push((kind, data));
        assert(self.stored() =~= old(self).stored().push((kind, data@)));
    }

    /// The `index`th block of type `kind`, as command `0x95` addresses it.
    pub fn nth(&self, kind: u8, index: usize) -> (r: Option<&[u8]>)
        ensures
            index < of_kind(self.stored(), kind).len() <==> r is Some,
            r matches Some(data) ==> data@ == of_kind(self.stored(), kind)[index as int],
    {
        let mut count: usize = 0;
        let mut i: usize = 0;
        while i < self.blocks.len()
            invariant
                i <= self.blocks@.len(),
                count == of_kind(self.stored().take(i as int), kind).len(),
                count <= index,
            decreases self.blocks@.len() - i,
        {
            proof {
                assert(self.stored().take(i + 1).drop_last() =~= self.stored().take(i as int));
            }
            if self.blocks[i].0 == kind {
                if count == index {
                    proof {
                        lemma_of_kind_prefix(self.stored(), kind, (i + 1) as nat);
                        let longer = self.stored().take(i + 1);
                        assert(longer.last() == self.stored()[i as int]);
                        assert(of_kind(longer, kind) == of_kind(
                            self.stored().take(i as int),
                            kind,
                        ).push(self.blocks@[i as int].1@));
                        assert(of_kind(longer, kind)[count as int] == self.blocks@[i as int].1@);
                        assert(of_kind(longer, kind)[count as int] == of_kind(
                            self.stored(),
                            kind,
                        )[count as int]);
                    }
                    return Some(self.blocks[i].1.as_slice());
                }
                count = count + 1;
            }
            i = i + 1;
        }
        proof {
            assert(self.stored().take(i as int) =~= self.stored());
        }
        None
    }

    /// Every block of type `kind` end to end: a stream bound with `0x91`
    /// addresses the type's whole concatenated bank.
    pub fn concatenated(&self, kind: u8) -> (v: Vec<u8>)
        ensures
            v@ == joined(of_kind(self.stored(), kind)),
    {
        let mut out: Vec<u8> = Vec::new();
        let mut i: usize = 0;
        while i < self.blocks.len()
            invariant
                i <= self.blocks@.len(),
                out@ == joined(of_kind(self.stored().take(i as int), kind)),
            decreases self.blocks@.len() - i,
        {
            proof {
                assert(self.stored().take(i + 1).drop_last() =~= self.stored().take(i as int));
            }
            let ghost prefix = of_kind(self.stored().take(i as int), kind);
            proof {
                assert(self.stored().take(i + 1).last() == self.stored()[i as int]);
            }
            if self.blocks[i].0 == kind {
                let ghost before = out@;
                out.extend_from_slice(self.blocks[i].1.as_slice());
                proof {
                    assert(out@ =~= before + self.blocks@[i as int].1@);
                    let grown = prefix.push(self.blocks@[i as int].1@);
                    assert(grown.drop_last() =~= prefix);
                    assert(of_kind(self.stored().take(i + 1), kind) == grown);
                }
            }
            i = i + 1;
        }
        proof {
            assert(self.stored().take(i as int) =~= self.stored());
        }
        out
    }

    /// How many blocks are stored, of every type.
    pub fn len(&self) -> (n: usize)
        ensures
            n == self.stored().len(),
    {
        self.blocks.len()
    }

    /// Whether nothing is stored.
    pub fn is_empty(&self) -> (e: bool)
        ensures
            e <==> self.stored().len() == 0,
    {
        self.blocks.len() == 0
    }

    /// Forgets everything, as a seek back to the start does.
    pub fn clear(&mut self)
        ensures
            final(self).stored() == Seq::<(u8, Seq<u8>)>::empty(),
    {
        self.blocks.clear();
        assert(self.stored() =~= Seq::<(u8, Seq<u8>)>::empty());
    }
}

/// The blocks of a type found in a prefix are the first ones found in the
/// whole sequence.
proof fn lemma_of_kind_prefix(blocks: Seq<(u8, Seq<u8>)>, kind: u8, n: nat)
    requires
        n <= blocks.len(),
    ensures
        of_kind(blocks.take(n as int), kind).len() <= of_kind(blocks, kind).len(),
        forall|j: int|
            0 <= j < of_kind(blocks.take(n as int), kind).len() ==> #[trigger] of_kind(
                blocks.take(n as int),
                kind,
            )[j] == of_kind(blocks, kind)[j],
    decreases blocks.len() - n,
{
    if n < blocks.len() {
        lemma_of_kind_prefix(blocks, kind, n + 1);
        let longer = blocks.take((n + 1) as int);
        assert(longer.drop_last() =~= blocks.take(n as int));
        let short = of_kind(blocks.take(n as int), kind);
        assert forall|j: int| 0 <= j < short.len() implies #[trigger] short[j] == of_kind(
            blocks,
            kind,
        )[j] by {
            assert(of_kind(longer, kind)[j] == of_kind(blocks, kind)[j]);
        }
    } else {
        assert(blocks.take(n as int) =~= blocks);
    }
}

} // verus!
