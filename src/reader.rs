//! Framing of the engine's binary files: signatures and compressed blocks.
use vstd::prelude::*;

verus! {

/// "TIL": the signature of a tile configuration file.
pub const RSDK_SIGNATURE_TIL: u32 = 0x4C4954;

pub open spec fn le32(b: Seq<u8>, i: int) -> int {
    b[i] + b[i + 1] * 0x100 + b[i + 2] * 0x10000 + b[i + 3] * 0x1000000
}

pub open spec fn be32(b: Seq<u8>, i: int) -> int {
    b[i] * 0x1000000 + b[i + 1] * 0x10000 + b[i + 2] * 0x100 + b[i + 3]
}

fn read_le32(data: &Vec<u8>, pos: usize) -> (r: u64)
    requires
        pos + 4 <= data.len(),
    ensures
        r == le32(data@, pos as int),
{
    data[pos] as u64 + data[pos + 1] as u64 * 0x100 + data[pos + 2] as u64 * 0x10000
        + data[pos + 3] as u64 * 0x1000000
}

fn read_be32(data: &Vec<u8>, pos: usize) -> (r: u64)
    requires
        pos + 4 <= data.len(),
    ensures
        r == be32(data@, pos as int),
{
    data[pos] as u64 * 0x1000000 + data[pos + 1] as u64 * 0x10000 + data[pos + 2] as u64
        * 0x100 + data[pos + 3] as u64
}

/// Whether a file starts with the tile configuration signature (little-endian).
pub fn has_tile_config_signature(data: &Vec<u8>) -> (r: bool)
    ensures
        r == (data@.len() >= 4 && le32(data@, 0) == RSDK_SIGNATURE_TIL),
{
    data.len() >= 4 && read_le32(data, 0) == RSDK_SIGNATURE_TIL as u64
}

/// Where a compressed block's deflate stream lies and how large it inflates.
#[derive(Clone, Copy, Debug, PartialEq, Eq, Structural)]
pub struct CompressedBlock {
    pub start: usize,
    pub len: usize,
    pub size: usize,
}

/// Reads the header of a compressed block at `pos`: a little-endian size
/// that counts the stream and four more bytes, then the inflated size
/// big-endian, then the stream. `None` if the header or the stream runs
/// past the end of the data.
pub fn compressed_block_header(data: &Vec<u8>, pos: usize) -> (r: Option<CompressedBlock>)
    ensures
        r is Some <==> (pos + 8 <= data@.len() && le32(data@, pos as int) >= 4 && pos + 8
            + le32(data@, pos as int) - 4 <= data@.len()),
        r matches Some(b) ==> b.start == pos + 8 && b.len == le32(data@, pos as int) - 4 && b.size
            == be32(data@, pos + 4),
{
    if data.len() < 8 || pos > data.len() - 8 {
        return None;
    }
    let stored = read_le32(data, pos);
    if stored < 4 {
        return None;
    }
    let len = stored - 4;
    let start = pos + 8;
    if len > (data.len() - start) as u64 {
        return None;
    }
    let size = read_be32(data, pos + 4);
    proof {
        assert(size <= 0xFFFF_FFFF);
    }
    Some(CompressedBlock { start, len: len as usize, size: size as usize })
}

/// Whether a compressed block's header and stream lie within the data.
pub open spec fn block_ok(data: Seq<u8>, pos: int) -> bool {
    pos + 8 <= data.len() && le32(data, pos) >= 4 && pos + 8 + le32(data, pos) - 4 <= data.len()
}

/// The deflate stream of the block at `pos`.
pub open spec fn block_stream(data: Seq<u8>, pos: int) -> Seq<u8> {
    data.subrange(pos + 8, pos + 8 + le32(data, pos) - 4)
}

/// What a zlib stream inflates to in a buffer of `size` bytes, if it
/// inflates completely.
pub uninterp spec fn inflated(stream: Seq<u8>, size: nat) -> Option<Seq<u8>>;

/// Relies on `miniz_oxide_c_api::lib_oxide::mz_uncompress2_oxide`: inflates
/// a whole zlib stream into a buffer of `size` bytes and reports how many it
/// wrote, or fails; the outcome depends on the stream and the size alone.
#[verifier::external_body]
fn inflate(stream: &Vec<u8>, size: usize) -> (r: Option<Vec<u8>>)
    ensures
        match r {
            Some(v) => inflated(stream@, size as nat) == Some(v@) && v@.len() <= size,
            None => inflated(stream@, size as nat) is None,
        },
{
    let mut out = vec![0u8; size];
    let mut dest_len: u64 = 0;
    let status = {
        let mut oxide = miniz_oxide_c_api::lib_oxide::StreamOxide::default();
        oxide.next_in = Some(&stream[..]);
        oxide.next_out = Some(&mut out[..]);
        miniz_oxide_c_api::lib_oxide::mz_uncompress2_oxide(&mut oxide, &mut dest_len)
    };
    match status {
        Ok(_) => {
            out.truncate(dest_len as usize);
            Some(out)
        },
        Err(_) => None,
    }
}

/// Reads the compressed block at `pos` (see `compressed_block_header`) and
/// inflates it. Returns the inflated bytes and the position after the
/// block; `None` if the block runs past the data or does not inflate.
pub fn read_compressed(data: &Vec<u8>, pos: usize) -> (r: Option<(Vec<u8>, usize)>)
    ensures
        !block_ok(data@, pos as int) ==> r is None,
        block_ok(data@, pos as int) ==> match r {
            Some((v, next)) => inflated(
                block_stream(data@, pos as int),
                be32(data@, pos + 4) as nat,
            ) == Some(v@) && next == pos + 8 + le32(data@, pos as int) - 4,
            None => inflated(block_stream(data@, pos as int), be32(data@, pos + 4) as nat) is None,
        },
{
    let block = match compressed_block_header(data, pos) {
        Some(b) => b,
        None => return None,
    };
    let mut stream: Vec<u8> = Vec::new();
    let mut i: usize = 0;
    while i < block.len
        invariant
            0 <= i <= block.len,
            block.start + block.len <= data.len(),
            stream@ == data@.subrange(block.start as int, block.start + i),
        decreases block.len - i,
    {
        stream.push(data[block.start + i]);
        proof {
            assert(stream@ =~= data@.subrange(block.start as int, block.start + i + 1));
        }
        i = i + 1;
    }
    match inflate(&stream, block.size) {
        Some(v) => Some((v, block.start + block.len)),
        None => None,
    }
}

/// A byte read as the character of the same code (Latin-1).
pub open spec fn latin1(bytes: Seq<u8>) -> Seq<char> {
    bytes.map_values(|b: u8| b as char)
}

/// Relies on `String::push`: appends one character to the string.
#[verifier::external_body]
fn push_char(s: &mut String, c: char)
    ensures
        final(s)@ == old(s)@.push(c),
{
    s.push(c)
}

/// Reads a string at `pos`: a length byte, then that many bytes, each one
/// character. Returns the string and the position after it; `None` if the
/// data ends first.
pub fn read_string(data: &Vec<u8>, pos: usize) -> (r: Option<(String, usize)>)
    ensures
        r is Some <==> (pos < data@.len() && pos + 1 + data@[pos as int] <= data@.len()),
        r matches Some((s, next)) ==> next == pos + 1 + data@[pos as int] && s@ == latin1(
            data@.subrange(pos + 1, next as int),
        ),
{
    if pos >= data.len() {
        return None;
    }
    let n = data[pos] as usize;
    if n > data.len() - pos - 1 {
        return None;
    }
    let start = pos + 1;
    let mut s = String::new();
    let mut i: usize = 0;
    while i < n
        invariant
            0 <= i <= n,
            start + n <= data.len(),
            s@ == latin1(data@.subrange(start as int, start + i)),
        decreases n - i,
    {
        let b = data[start + i];
        push_char(&mut s, b as char);
        proof {
            assert(s@ =~= latin1(data@.subrange(start as int, start + i + 1)));
        }
        i = i + 1;
    }
    Some((s, start + n))
}

} // verus!
