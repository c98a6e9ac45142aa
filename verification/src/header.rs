//! The header a client sends first when it opens a connection.
//!
//! Layout, all integers big-endian:
//!
//! | bytes | meaning                                                  |
//! |-------|----------------------------------------------------------|
//! | 4     | magic value, always `0x6B7109BA`                         |
//! | 4     | unsigned client version                                  |
//! | 2     | unsigned world (i.e. Minecraft server)                   |
//! | 2     | signed dimension (0 Overworld, 1 End, -1 Nether)         |
//! | 4     | signed x coordinate                                      |
//! | 4     | signed z coordinate                                      |

use vstd::prelude::*;

use crate::models::{ComputerData, DimensionId, WorldId};

verus! {

/// The value every header starts with.
pub const MAGIC: u32 = 0x6B7109BA;

/// Bytes taken by the magic value.
pub const MAGIC_LEN: usize = 4;

/// Bytes taken by a whole header.
pub const HEADER_LEN: usize = 20;

/// Why a header could not be read.
#[derive(Debug, Clone, Copy, PartialEq, Eq, Structural)]
pub enum HeaderError {
    /// The input ended before the header did.
    UnexpectedEnd,
    /// The first four bytes are not [`MAGIC`]; the value found is kept.
    BadMagic(u32),
}

/// The unsigned big-endian number in `b[at..at + 2]`.
pub open spec fn be16(b: Seq<u8>, at: int) -> int {
    b[at] * 256 + b[at + 1]
}

/// The unsigned big-endian number in `b[at..at + 4]`.
pub open spec fn be32(b: Seq<u8>, at: int) -> int {
    b[at] * 16777216 + b[at + 1] * 65536 + b[at + 2] * 256 + b[at + 3]
}

/// The two's complement reading of a 16-bit pattern `u` (with `0 <= u < 2^16`).
pub open spec fn signed16(u: int) -> int {
    if u >= 0x8000 {
        u - 0x10000
    } else {
        u
    }
}

/// The two's complement reading of a 32-bit pattern `u` (with `0 <= u < 2^32`).
pub open spec fn signed32(u: int) -> int {
    if u >= 0x8000_0000 {
        u - 0x1_0000_0000
    } else {
        u
    }
}

/// The data held by the 20 header bytes at the start of `b`.
pub open spec fn header_fields(b: Seq<u8>) -> ComputerData {
    ComputerData {
        version: be32(b, 4) as u32,
        world: WorldId(be16(b, 8) as u16),
        dimension: DimensionId(signed16(be16(b, 10)) as i16),
        pos_x: signed32(be32(b, 12)) as i32,
        pos_z: signed32(be32(b, 16)) as i32,
    }
}

/// What reading a header from the start of `b` gives: the magic value is
/// checked as soon as four bytes are there, then the remaining fields are read.
pub open spec fn header_result(b: Seq<u8>) -> Result<ComputerData, HeaderError> {
    if b.len() < MAGIC_LEN {
        Err(HeaderError::UnexpectedEnd)
    } else if be32(b, 0) != MAGIC {
        Err(HeaderError::BadMagic(be32(b, 0) as u32))
    } else if b.len() < HEADER_LEN {
        Err(HeaderError::UnexpectedEnd)
    } else {
        Ok(header_fields(b))
    }
}

/// The big-endian bytes of a 16-bit pattern `u` (with `0 <= u < 2^16`).
pub open spec fn be16_bytes(u: int) -> Seq<u8> {
    seq![(u / 256) as u8, (u % 256) as u8]
}

/// The big-endian bytes of a 32-bit pattern `u` (with `0 <= u < 2^32`).
pub open spec fn be32_bytes(u: int) -> Seq<u8> {
    seq![(u / 16777216) as u8, ((u / 65536) % 256) as u8, ((u / 256) % 256) as u8, (u % 256) as u8]
}

/// The 16-bit two's complement pattern of `v` (with `-2^15 <= v < 2^15`).
pub open spec fn unsigned16(v: int) -> int {
    if v < 0 {
        v + 0x10000
    } else {
        v
    }
}

/// The 32-bit two's complement pattern of `v` (with `-2^31 <= v < 2^31`).
pub open spec fn unsigned32(v: int) -> int {
    if v < 0 {
        v + 0x1_0000_0000
    } else {
        v
    }
}

/// The header a client sends to announce `d`, in the layout above.
pub open spec fn header_bytes(d: ComputerData) -> Seq<u8> {
    be32_bytes(MAGIC as int) + be32_bytes(d.version as int) + be16_bytes(d.world.0 as int)
        + be16_bytes(unsigned16(d.dimension.0 as int)) + be32_bytes(unsigned32(d.pos_x as int))
        + be32_bytes(unsigned32(d.pos_z as int))
}

proof fn lemma_be16_of_bytes(u: int, b: Seq<u8>, at: int)
    requires
        0 <= u < 0x10000,
        0 <= at,
        at + 2 <= b.len(),
        b.subrange(at, at + 2) == be16_bytes(u),
    ensures
        be16(b, at) == u,
{
    assert(b[at] == be16_bytes(u)[0]);
    assert(b[at + 1] == be16_bytes(u)[1]);
}

pub(crate) proof fn lemma_be32_of_bytes(u: int, b: Seq<u8>, at: int)
    requires
        0 <= u < 0x1_0000_0000,
        0 <= at,
        at + 4 <= b.len(),
        b.subrange(at, at + 4) == be32_bytes(u),
    ensures
        be32(b, at) == u,
{
    assert(b[at] == be32_bytes(u)[0]);
    assert(b[at + 1] == be32_bytes(u)[1]);
    assert(b[at + 2] == be32_bytes(u)[2]);
    assert(b[at + 3] == be32_bytes(u)[3]);
}

proof fn lemma_bytes_of_be16(b: Seq<u8>, at: int)
    requires
        0 <= at,
        at + 2 <= b.len(),
    ensures
        0 <= be16(b, at) < 0x10000,
        be16_bytes(be16(b, at)) == b.subrange(at, at + 2),
{
    assert(be16_bytes(be16(b, at)) =~= b.subrange(at, at + 2));
}

proof fn lemma_bytes_of_be32(b: Seq<u8>, at: int)
    requires
        0 <= at,
        at + 4 <= b.len(),
    ensures
        0 <= be32(b, at) < 0x1_0000_0000,
        be32_bytes(be32(b, at)) == b.subrange(at, at + 4),
{
    assert(be32_bytes(be32(b, at)) =~= b.subrange(at, at + 4));
}

/// A header written in the documented layout reads back as the data it
/// announces, whatever follows it on the connection.
pub proof fn lemma_header_roundtrip(d: ComputerData, rest: Seq<u8>)
    ensures
        header_result(header_bytes(d) + rest) == Ok::<ComputerData, HeaderError>(d),
{
    let b = header_bytes(d) + rest;
    let h = header_bytes(d);
    assert(h.len() == 20);
    assert(b.subrange(0, 4) =~= be32_bytes(MAGIC as int));
    assert(b.subrange(4, 8) =~= be32_bytes(d.version as int));
    assert(b.subrange(8, 10) =~= be16_bytes(d.world.0 as int));
    assert(b.subrange(10, 12) =~= be16_bytes(unsigned16(d.dimension.0 as int)));
    assert(b.subrange(12, 16) =~= be32_bytes(unsigned32(d.pos_x as int)));
    assert(b.subrange(16, 20) =~= be32_bytes(unsigned32(d.pos_z as int)));
    lemma_be32_of_bytes(MAGIC as int, b, 0);
    lemma_be32_of_bytes(d.version as int, b, 4);
    lemma_be16_of_bytes(d.world.0 as int, b, 8);
    lemma_be16_of_bytes(unsigned16(d.dimension.0 as int), b, 10);
    lemma_be32_of_bytes(unsigned32(d.pos_x as int), b, 12);
    lemma_be32_of_bytes(unsigned32(d.pos_z as int), b, 16);
    assert(header_fields(b) == d);
}

/// Nothing is read from fewer than [`HEADER_LEN`] bytes, and once four bytes
/// are there a wrong magic value is reported with the value found.
pub proof fn lemma_header_needs_all_bytes(b: Seq<u8>)
    ensures
        b.len() < HEADER_LEN ==> header_result(b) is Err,
        b.len() < MAGIC_LEN ==> header_result(b) == Err::<ComputerData, HeaderError>(
            HeaderError::UnexpectedEnd,
        ),
        b.len() >= MAGIC_LEN && be32(b, 0) != MAGIC ==> header_result(b) == Err::<
            ComputerData,
            HeaderError,
        >(HeaderError::BadMagic(be32(b, 0) as u32)),
{
}

/// A header is read from exactly one byte string: whenever reading succeeds,
/// the first [`HEADER_LEN`] bytes are the documented layout of what was read.
pub proof fn lemma_header_unique(b: Seq<u8>)
    requires
        header_result(b) is Ok,
    ensures
        b.subrange(0, HEADER_LEN as int) == header_bytes(header_result(b)->Ok_0),
{
    let d = header_result(b)->Ok_0;
    lemma_bytes_of_be32(b, 0);
    lemma_bytes_of_be32(b, 4);
    lemma_bytes_of_be16(b, 8);
    lemma_bytes_of_be16(b, 10);
    lemma_bytes_of_be32(b, 12);
    lemma_bytes_of_be32(b, 16);
    assert(b.subrange(0, 20) =~= b.subrange(0, 4) + b.subrange(4, 8) + b.subrange(8, 10)
        + b.subrange(10, 12) + b.subrange(12, 16) + b.subrange(16, 20));
}

fn read_u16_be(b: &[u8], at: usize) -> (r: u16)
    requires
        at + 2 <= b@.len(),
    ensures
        r == be16(b@, at as int),
{
    let hi: u16 = b[at] as u16;
    let lo: u16 = b[at + 1] as u16;
    hi * 256 + lo
}

fn read_u32_be(b: &[u8], at: usize) -> (r: u32)
    requires
        at + 4 <= b@.len(),
    ensures
        r == be32(b@, at as int),
{
    let b0: u32 = b[at] as u32;
    let b1: u32 = b[at + 1] as u32;
    let b2: u32 = b[at + 2] as u32;
    let b3: u32 = b[at + 3] as u32;
    b0 * 16777216 + b1 * 65536 + b2 * 256 + b3
}

fn read_i16_be(b: &[u8], at: usize) -> (r: i16)
    requires
        at + 2 <= b@.len(),
    ensures
        r == signed16(be16(b@, at as int)),
{
    let u = read_u16_be(b, at);
    if u >= 0x8000 {
        let wide: i32 = u as i32 - 0x10000;
        wide as i16
    } else {
        u as i16
    }
}

fn read_i32_be(b: &[u8], at: usize) -> (r: i32)
    requires
        at + 4 <= b@.len(),
    ensures
        r == signed32(be32(b@, at as int)),
{
    let u = read_u32_be(b, at);
    if u >= 0x8000_0000 {
        let wide: i64 = u as i64 - 0x1_0000_0000;
        wide as i32
    } else {
        u as i32
    }
}

/// Reads the connection header at the start of `bytes`; bytes after the
/// first [`HEADER_LEN`] are left alone.
pub fn parse_connection_header(bytes: &[u8]) -> (r: Result<ComputerData, HeaderError>)
    ensures
        r == header_result(bytes@),
{
    if bytes.len() < MAGIC_LEN {
        return Err(HeaderError::UnexpectedEnd);
    }
    let magic = read_u32_be(bytes, 0);
    if magic != MAGIC {
        return Err(HeaderError::BadMagic(magic));
    }
    if bytes.len() < HEADER_LEN {
        return Err(HeaderError::UnexpectedEnd);
    }
    Ok(
        ComputerData {
            version: read_u32_be(bytes, 4),
            world: WorldId(read_u16_be(bytes, 8)),
            dimension: DimensionId(read_i16_be(bytes, 10)),
            pos_x: read_i32_be(bytes, 12),
            pos_z: read_i32_be(bytes, 16),
        },
    )
}

} // verus!
