use vstd::prelude::*;

use crate::errors::Error;
use miniz_oxide::inflate::TINFLStatus;
use crate::{BUF_SIZE, HEADER_SIZE};

verus! {

broadcast use vstd::array::group_array_axioms;

/// The little-endian 32-bit number stored at `d[i..i + 4]`.
pub open spec fn le_u32_at(d: Seq<u8>, i: int) -> int {
    d[i] + d[i + 1] * 0x100 + d[i + 2] * 0x1_0000 + d[i + 3] * 0x100_0000
}

/// The little-endian 64-bit number stored at `d[i..i + 8]`.
pub open spec fn le_u64_at(d: Seq<u8>, i: int) -> int {
    le_u32_at(d, i) + le_u32_at(d, i + 4) * 0x1_0000_0000
}

/// The number of blocks that a GCZ header declares (at 0x1C).
pub open spec fn gcz_num_blocks(d: Seq<u8>) -> int {
    le_u32_at(d, 0x1c)
}

/// The `k`-th entry of the block pointer table, which follows the GCZ header at 0x20.
pub open spec fn gcz_block_ptr(d: Seq<u8>, k: int) -> int {
    le_u64_at(d, 0x20 + 8 * k)
}

/// The data offset that a block pointer holds: all but its top bit.
pub open spec fn ptr_offset(p: int) -> int {
    p % 0x8000_0000_0000_0000
}

/// Whether a block pointer marks its block as stored uncompressed: its top bit.
pub open spec fn ptr_is_uncompressed(p: int) -> bool {
    p >= 0x8000_0000_0000_0000
}

/// The stored size of block 0: the compressed data size (at 0x08) when it is
/// the only block, else the offset at which block 1 starts.
pub open spec fn gcz_block0_size(d: Seq<u8>) -> int {
    if gcz_num_blocks(d) == 1 {
        le_u64_at(d, 0x08)
    } else {
        ptr_offset(gcz_block_ptr(d, 1))
    }
}

/// The most bytes that block 0 may take: 1 MiB.
pub open spec fn max_block0_size() -> int {
    0x10_0000
}

/// Whether the GCZ header and pointer table describe a usable block 0: there
/// is a block, block 0 starts the data, block 1 (if any) does not, and block 0
/// is at most 1 MiB.
pub open spec fn gcz_block0_ok(d: Seq<u8>) -> bool {
    &&& gcz_num_blocks(d) != 0
    &&& ptr_offset(gcz_block_ptr(d, 0)) == 0
    &&& (gcz_num_blocks(d) == 1 || ptr_offset(gcz_block_ptr(d, 1)) != 0)
    &&& gcz_block0_size(d) <= max_block0_size()
}

/// Whether `d` holds every field that parsing block 0 reads: the block count
/// (up to 0x20), block 0's pointer when there is a block (up to 0x28), and
/// block 1's pointer when it is needed (up to 0x30).
pub open spec fn gcz_table_in_range(d: Seq<u8>) -> bool {
    &&& d.len() >= 0x20
    &&& gcz_num_blocks(d) != 0 ==> d.len() >= 0x28
    &&& gcz_num_blocks(d) > 1 && ptr_offset(gcz_block_ptr(d, 0)) == 0 ==> d.len() >= 0x30
}

/// Whether `initial_data` holds every field that `parse_block0_info` reads.
pub fn table_in_range(initial_data: &[u8]) -> (r: bool)
    ensures
        r == gcz_table_in_range(initial_data@),
{
    if initial_data.len() < 0x20 {
        return false;
    }
    let num_blocks = read_u32_le(initial_data, 0x1c);
    if num_blocks == 0 {
        return true;
    }
    if initial_data.len() < 0x28 {
        return false;
    }
    if num_blocks == 1 {
        return true;
    }
    let blk0_ptr = read_u64_le(initial_data, 0x20);
    assert(blk0_ptr & !(1u64 << 63) == blk0_ptr % 0x8000_0000_0000_0000) by (bit_vector);
    (blk0_ptr & !(1u64 << 63)) != 0 || initial_data.len() >= 0x30
}

/// Whether block 0 is stored uncompressed is the top bit of block 0's own
/// pointer (the last byte of the table entry at 0x20), whatever the number of
/// blocks and the other pointers.
pub proof fn lemma_block0_stored_flag(d: Seq<u8>)
    requires
        d.len() >= 0x28,
    ensures
        gcz_block0_info(d).is_uncompressed == (d[0x27] >= 0x80),
{
    assert(ptr_is_uncompressed(gcz_block_ptr(d, 0)) == (d[0x27] >= 0x80));
}

/// The data of a GCZ image starts after the 0x20-byte header and 12 bytes
/// (an 8-byte pointer and a 4-byte hash) for each block that the little-endian
/// count at 0x1C declares.
pub proof fn lemma_block0_data_start(d: Seq<u8>)
    requires
        d.len() >= 0x20,
    ensures
        gcz_block0_info(d).data_start == 0x20 + 12 * (d[0x1c] + 0x100 * d[0x1d] + 0x1_0000 * d[0x1e]
            + 0x100_0000 * d[0x1f]),
{
}

/// Where block 0 of a GCZ image lies, and how it is stored.
#[derive(Debug, Clone, Copy, PartialEq, Eq, Structural)]
pub struct Block0Info {
    /// How many bytes block 0 takes in the file.
    pub compressed_size: usize,
    /// The file offset at which the block data begins: after the header, the
    /// pointer table (8 bytes a block) and the hash table (4 bytes a block).
    pub data_start: u64,
    /// Whether block 0 is stored as is rather than zlib-compressed.
    pub is_uncompressed: bool,
}

/// The layout of block 0 that a valid GCZ header describes.
pub open spec fn gcz_block0_info(d: Seq<u8>) -> Block0Info {
    Block0Info {
        compressed_size: gcz_block0_size(d) as usize,
        data_start: (0x20 + 12 * gcz_num_blocks(d)) as u64,
        is_uncompressed: ptr_is_uncompressed(gcz_block_ptr(d, 0)),
    }
}

/// Reads the little-endian `u32` at `d[i..i + 4]`.
fn read_u32_le(d: &[u8], i: usize) -> (r: u32)
    requires
        i + 4 <= d.len(),
    ensures
        r == le_u32_at(d@, i as int),
{
    (d[i] as u32) + (d[i + 1] as u32) * 0x100 + (d[i + 2] as u32) * 0x1_0000 + (d[i + 3] as u32)
        * 0x100_0000
}

/// Reads the little-endian `u64` at `d[i..i + 8]`.
fn read_u64_le(d: &[u8], i: usize) -> (r: u64)
    requires
        i + 8 <= d.len(),
    ensures
        r == le_u64_at(d@, i as int),
{
    let lo = read_u32_le(d, i);
    let hi = read_u32_le(d, i + 4);
    (lo as u64) + (hi as u64) * 0x1_0000_0000
}

/// Parses and checks the layout of GCZ block 0 from the first bytes of the image.
pub fn parse_block0_info(initial_data: &[u8]) -> (r: Result<Block0Info, Error>)
    requires
        gcz_table_in_range(initial_data@),
    ensures
        r is Ok <==> gcz_block0_ok(initial_data@),
        r matches Ok(info) ==> info == gcz_block0_info(initial_data@),
        r matches Ok(info) ==> info.compressed_size <= max_block0_size() && info.data_start >= 0x2c,
        r matches Err(e) ==> e == Error::Gcz,
{
    let num_blocks = read_u32_le(initial_data, 0x1c) as u64;
    if num_blocks == 0 {
        return Err(Error::Gcz);
    }
    let blk0_ptr = read_u64_le(initial_data, 0x20);
    let blk0_offset = blk0_ptr & !(1u64 << 63);
    assert(blk0_ptr & !(1u64 << 63) == blk0_ptr % 0x8000_0000_0000_0000) by (bit_vector);
    if blk0_offset != 0 {
        return Err(Error::Gcz);
    }
    let compressed_size: u64 = if num_blocks == 1 {
        read_u64_le(initial_data, 0x08)
    } else {
        let blk1_ptr = read_u64_le(initial_data, 0x28);
        let blk1_offset = blk1_ptr & !(1u64 << 63);
        assert(blk1_ptr & !(1u64 << 63) == blk1_ptr % 0x8000_0000_0000_0000) by (bit_vector);
        if blk1_offset == 0 {
            return Err(Error::Gcz);
        }
        blk1_offset
    };
    if compressed_size > 1024 * 1024 {
        return Err(Error::Gcz);
    }
    let data_start = 0x20 + num_blocks * 12;
    let is_uncompressed = (blk0_ptr & (1u64 << 63)) != 0;
    assert((blk0_ptr & (1u64 << 63) != 0) == (blk0_ptr >= 0x8000_0000_0000_0000)) by (bit_vector);
    Ok(Block0Info { compressed_size: compressed_size as usize, data_start, is_uncompressed })
}

/// Why the zlib decoder of `miniz_oxide` stopped without finishing the stream.
#[derive(Debug, Clone, Copy, PartialEq, Eq, Structural)]
pub enum InflateStatus {
    FailedCannotMakeProgress,
    BadParam,
    Adler32Mismatch,
    Failed,
    Done,
    NeedsMoreInput,
    HasMoreOutput,
    /// A status that a later version of the decoder may add.
    Other,
}

/// What `miniz_oxide::inflate::decompress_slice_iter_to_slice` leaves in an
/// output buffer that held `out` and what it returns, when it decodes `input`
/// as its only input slice with the given flags.
pub uninterp spec fn zlib_decompress_to_slice(
    out: Seq<u8>,
    input: Seq<u8>,
    zlib_header: bool,
    ignore_adler32: bool,
) -> (Seq<u8>, Result<usize, InflateStatus>);

/// `miniz_oxide::inflate::decompress_slice_iter_to_slice`, given `input` as its
/// one input slice: decodes as much as fits into `out`. What it writes and
/// returns is a function of the buffer, the input and the two flags alone; the
/// contract names it and states nothing more of the decoder.
#[verifier::external_body]
fn decompress_into_header(
    out: &mut [u8; HEADER_SIZE],
    input: &[u8],
    zlib_header: bool,
    ignore_adler32: bool,
) -> (r: Result<usize, InflateStatus>)
    ensures
        (final(out)@, r) == zlib_decompress_to_slice(old(out)@, input@, zlib_header, ignore_adler32),
{
    match miniz_oxide::inflate::decompress_slice_iter_to_slice(
        out, core::iter::once(input), zlib_header, ignore_adler32) {
        Ok(n) => Ok(n),
        Err(TINFLStatus::FailedCannotMakeProgress) => Err(InflateStatus::FailedCannotMakeProgress),
        Err(TINFLStatus::BadParam) => Err(InflateStatus::BadParam),
        Err(TINFLStatus::Adler32Mismatch) => Err(InflateStatus::Adler32Mismatch),
        Err(TINFLStatus::Failed) => Err(InflateStatus::Failed),
        Err(TINFLStatus::Done) => Err(InflateStatus::Done),
        Err(TINFLStatus::NeedsMoreInput) => Err(InflateStatus::NeedsMoreInput),
        Err(TINFLStatus::HasMoreOutput) => Err(InflateStatus::HasMoreOutput),
        Err(_) => Err(InflateStatus::Other),
    }
}

/// Whether decoding produced a whole header: the stream ended, or the header
/// buffer filled up before it did.
pub open spec fn inflate_filled_header(status: Result<usize, InflateStatus>) -> bool {
    status is Ok || status == Err::<usize, InflateStatus>(InflateStatus::HasMoreOutput)
}

/// The header buffer before decoding: all zero.
pub open spec fn zero_header() -> Seq<u8> {
    Seq::new(HEADER_SIZE as nat, |i: int| 0u8)
}

/// What decoding the zlib stream `buf` into a zeroed header buffer yields.
pub open spec fn inflated_header(buf: Seq<u8>) -> (Seq<u8>, Result<usize, InflateStatus>) {
    zlib_decompress_to_slice(zero_header(), buf, true, false)
}

/// Whether a header can be taken from block 0: its first bytes when it is
/// stored uncompressed, else the decoded start of its zlib stream.
pub open spec fn header_extractable(buf: Seq<u8>, is_uncompressed: bool) -> bool {
    if is_uncompressed {
        buf.len() >= HEADER_SIZE
    } else {
        inflate_filled_header(inflated_header(buf).1)
    }
}

/// The header that block 0 holds.
pub open spec fn extracted_header(buf: Seq<u8>, is_uncompressed: bool) -> Seq<u8> {
    if is_uncompressed {
        buf.take(HEADER_SIZE as int)
    } else {
        inflated_header(buf).0
    }
}

/// Turns the outcome of decoding block 0 into a header: the decoded bytes when
/// the stream ended or filled the header, else a GCZ error.
pub fn header_from_inflate(out: [u8; HEADER_SIZE], status: Result<usize, InflateStatus>) -> (r:
    Result<[u8; HEADER_SIZE], Error>)
    ensures
        r is Ok <==> inflate_filled_header(status),
        r matches Ok(h) ==> h == out,
        r matches Err(e) ==> e == Error::Gcz,
{
    match status {
        Ok(_) => Ok(out),
        Err(InflateStatus::HasMoreOutput) => Ok(out),
        Err(_) => Err(Error::Gcz),
    }
}

/// Takes the disc header out of the bytes of GCZ block 0: its first bytes when
/// the block is stored uncompressed, else the start of its decoded zlib stream.
pub fn extract_header(buf: &[u8], is_uncompressed: bool) -> (r: Result<[u8; HEADER_SIZE], Error>)
    ensures
        r is Ok <==> header_extractable(buf@, is_uncompressed),
        r matches Ok(h) ==> h@ == extracted_header(buf@, is_uncompressed),
        header_extractable(buf@, is_uncompressed) ==> extracted_header(buf@, is_uncompressed).len()
            == HEADER_SIZE,
        r matches Err(e) ==> e == Error::Gcz,
{
    let mut header = [0u8; HEADER_SIZE];
    assert(header@ =~= zero_header());
    if is_uncompressed {
        if buf.len() < HEADER_SIZE {
            return Err(Error::Gcz);
        }
        let mut i: usize = 0;
        while i < HEADER_SIZE
            invariant
                i <= HEADER_SIZE,
                HEADER_SIZE <= buf@.len(),
                forall|j: int| 0 <= j < i ==> header@[j] == buf@[j],
            decreases HEADER_SIZE - i,
        {
            header[i] = buf[i];
            i = i + 1;
        }
        assert(header@ =~= buf@.take(HEADER_SIZE as int));
        Ok(header)
    } else {
        let status = decompress_into_header(&mut header, buf, true, false);
        header_from_inflate(header, status)
    }
}

/// How many bytes of block 0 the first `BUF_SIZE` bytes of the image already hold.
pub open spec fn block0_buffered(info: Block0Info) -> int {
    if info.data_start <= BUF_SIZE {
        BUF_SIZE - info.data_start
    } else {
        0
    }
}

/// How many bytes of the stream after the first buffer are skipped before block 0.
pub open spec fn block0_skip(info: Block0Info) -> int {
    if info.data_start <= BUF_SIZE {
        0
    } else {
        info.data_start - BUF_SIZE
    }
}

/// How many bytes of block 0 are read from the stream after the skip.
pub open spec fn block0_fetch_len(info: Block0Info) -> int {
    info.compressed_size - block0_buffered(info)
}

/// Whether block 0 reaches past the first buffer, so that it can be fetched
/// by reading on: the part already buffered is no longer than the block.
pub open spec fn block0_fetchable(info: Block0Info) -> bool {
    block0_buffered(info) <= info.compressed_size
}

/// Whether block 0 reaches past the first buffer (see `block0_fetchable`).
pub fn block0_fetchable_exec(info: &Block0Info) -> (r: bool)
    ensures
        r == block0_fetchable(*info),
{
    info.data_start > BUF_SIZE as u64 || BUF_SIZE - info.data_start as usize
        <= info.compressed_size
}

/// Block 0 put together from the first buffer `initial` and the bytes
/// `fetched` that were read after the skip.
pub open spec fn assembled_block0(initial: Seq<u8>, info: Block0Info, fetched: Seq<u8>) -> Seq<u8> {
    if info.data_start <= BUF_SIZE {
        initial.subrange(info.data_start as int, BUF_SIZE as int) + fetched
    } else {
        fetched
    }
}

/// How the rest of GCZ block 0 is fetched once the first `BUF_SIZE` bytes are read.
#[derive(Debug, Clone, Copy, PartialEq, Eq, Structural)]
pub struct Block0Fetch {
    /// How many bytes of the stream to skip.
    pub skip: u64,
    /// How many bytes to read after the skip.
    pub len: usize,
}

/// Decides how the rest of block 0 is fetched: when it begins inside the first
/// buffer, read what is missing of it; else skip to it and read all of it.
pub fn block0_fetch(info: &Block0Info) -> (f: Block0Fetch)
    requires
        block0_fetchable(*info),
    ensures
        f.skip == block0_skip(*info),
        f.len == block0_fetch_len(*info),
        f.skip + f.len == info.data_start + info.compressed_size - BUF_SIZE,
{
    if info.data_start <= BUF_SIZE as u64 {
        let overlap = BUF_SIZE - info.data_start as usize;
        Block0Fetch { skip: 0, len: info.compressed_size - overlap }
    } else {
        Block0Fetch { skip: info.data_start - BUF_SIZE as u64, len: info.compressed_size }
    }
}

/// Puts block 0 together: the tail of the first buffer from `data_start`
/// (when the block begins there), then the bytes read after the skip.
pub fn assemble_block0(initial_data: &[u8], info: &Block0Info, fetched: &[u8]) -> (block: Vec<u8>)
    requires
        info.data_start <= BUF_SIZE ==> initial_data@.len() == BUF_SIZE,
        block0_fetchable(*info),
        fetched@.len() == block0_fetch_len(*info),
    ensures
        block@ == assembled_block0(initial_data@, *info, fetched@),
        block@.len() == info.compressed_size,
{
    let mut block: Vec<u8> = Vec::new();
    let start: usize = if info.data_start <= BUF_SIZE as u64 {
        info.data_start as usize
    } else {
        BUF_SIZE
    };
    let ghost head = if info.data_start <= BUF_SIZE {
        initial_data@.subrange(info.data_start as int, BUF_SIZE as int)
    } else {
        Seq::<u8>::empty()
    };
    let mut i: usize = start;
    while i < BUF_SIZE
        invariant
            start <= i <= BUF_SIZE,
            info.data_start <= BUF_SIZE ==> start == info.data_start && initial_data@.len()
                == BUF_SIZE,
            info.data_start > BUF_SIZE ==> start == BUF_SIZE,
            block@ == head.take(i - start),
            head.len() == BUF_SIZE - start,
            info.data_start <= BUF_SIZE ==> head == initial_data@.subrange(start as int, BUF_SIZE as int),
        decreases BUF_SIZE - i,
    {
        block.push(initial_data[i]);
        i = i + 1;
        assert(block@ =~= head.take(i - start));
    }
    assert(head.take(BUF_SIZE - start) =~= head);
    let mut j: usize = 0;
    while j < fetched.len()
        invariant
            j <= fetched@.len(),
            block@ == head + fetched@.take(j as int),
        decreases fetched@.len() - j,
    {
        block.push(fetched[j]);
        j = j + 1;
        assert(block@ =~= head + fetched@.take(j as int));
    }
    assert(fetched@.take(j as int) =~= fetched@);
    assert(block@ =~= assembled_block0(initial_data@, *info, fetched@));
    block
}

/// Reading block 0 from a stream: when the first buffer `initial` is followed
/// in the stream by `rest`, and block 0 ends after the first buffer and within
/// the stream, skipping and reading as `block0_fetch` decides consumes the
/// stream up to the end of block 0, and puts together exactly the
/// `compressed_size` bytes of the image from `data_start`.
pub proof fn lemma_block0_from_stream(initial: Seq<u8>, rest: Seq<u8>, info: Block0Info)
    requires
        initial.len() == BUF_SIZE,
        BUF_SIZE <= info.data_start + info.compressed_size <= BUF_SIZE + rest.len(),
    ensures
        block0_fetchable(info),
        block0_skip(info) + block0_fetch_len(info) == info.data_start + info.compressed_size
            - BUF_SIZE,
        assembled_block0(
            initial,
            info,
            rest.subrange(block0_skip(info), block0_skip(info) + block0_fetch_len(info)),
        ) == (initial + rest).subrange(
            info.data_start as int,
            info.data_start + info.compressed_size,
        ),
{
    let s = initial + rest;
    let fetched = rest.subrange(block0_skip(info), block0_skip(info) + block0_fetch_len(info));
    assert(assembled_block0(initial, info, fetched) =~= s.subrange(
        info.data_start as int,
        info.data_start + info.compressed_size,
    ));
}

/// Takes the disc header out of block 0 put together from the first buffer
/// and the bytes read after the skip.
pub fn block0_header(initial_data: &[u8], info: &Block0Info, fetched: &[u8]) -> (r: Result<
    [u8; HEADER_SIZE],
    Error,
>)
    requires
        info.data_start <= BUF_SIZE ==> initial_data@.len() == BUF_SIZE,
        block0_fetchable(*info),
        fetched@.len() == block0_fetch_len(*info),
    ensures
        r is Ok <==> header_extractable(
            assembled_block0(initial_data@, *info, fetched@),
            info.is_uncompressed,
        ),
        r matches Ok(h) ==> h@ == extracted_header(
            assembled_block0(initial_data@, *info, fetched@),
            info.is_uncompressed,
        ),
        header_extractable(assembled_block0(initial_data@, *info, fetched@), info.is_uncompressed)
            ==> extracted_header(
            assembled_block0(initial_data@, *info, fetched@),
            info.is_uncompressed,
        ).len() == HEADER_SIZE,
        r matches Err(e) ==> e == Error::Gcz,
{
    let block = assemble_block0(initial_data, info, fetched);
    extract_header(block.as_slice(), info.is_uncompressed)
}

} // verus!
