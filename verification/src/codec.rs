//! Decoding of raw property payloads: little-endian scalars, fixed-size
//! element lists, and the variable-length preferred-channel-layout structure.
use vstd::prelude::*;

verus! {

/// Status code returned by the modeled audio service: zero means success.
pub type Status = i32;

/// The status a query earns when the addressed property does not exist.
pub const STATUS_UNKNOWN_PROPERTY: Status = 0x77686f3f;

/// The status a read earns when the payload does not have the expected size.
pub const STATUS_BAD_SIZE: Status = 0x2173697a;

/// Reads a little-endian `u32` out of four bytes.
pub open spec fn u32_of_le(b: Seq<u8>) -> u32
    recommends
        b.len() == 4,
{
    (b[0] as u32) | ((b[1] as u32) << 8) | ((b[2] as u32) << 16) | ((b[3] as u32) << 24)
}

/// Reads a little-endian `u64` out of eight bytes.
pub open spec fn u64_of_le(b: Seq<u8>) -> u64
    recommends
        b.len() == 8,
{
    (b[0] as u64) | ((b[1] as u64) << 8) | ((b[2] as u64) << 16) | ((b[3] as u64) << 24) | (
    (b[4] as u64) << 32) | ((b[5] as u64) << 40) | ((b[6] as u64) << 48) | ((b[7] as u64) << 56)
}

/// Reads a little-endian `i32` out of four bytes.
pub open spec fn i32_of_le(b: Seq<u8>) -> i32 {
    u32_of_le(b) as i32
}

/// The `n`th `size`-byte chunk of `b`.
pub open spec fn chunk_at(b: Seq<u8>, size: nat, n: nat) -> Seq<u8> {
    b.subrange((n * size) as int, (n * size + size) as int)
}

/// `b` split into consecutive `size`-byte chunks; trailing bytes that do not
/// fill a whole chunk are dropped.
pub open spec fn chunks_of(b: Seq<u8>, size: nat) -> Seq<Seq<u8>>
    recommends
        size > 0,
{
    Seq::new(b.len() / size, |i: int| chunk_at(b, size, i as nat))
}

/// Reads the little-endian `u32` at byte offset `off` of `b`.
pub fn read_u32_le(b: &Vec<u8>, off: usize) -> (r: u32)
    requires
        off + 4 <= b@.len(),
    ensures
        r == u32_of_le(b@.subrange(off as int, off as int + 4)),
{
    let len: usize = b.len();
    let r = (b[off] as u32) | ((b[off + 1] as u32) << 8) | ((b[off + 2] as u32) << 16) | ((b[off
        + 3] as u32) << 24);
    proof {
        let s = b@.subrange(off as int, off as int + 4);
        assert(s[0] == b@[off as int] && s[1] == b@[off as int + 1] && s[2] == b@[off as int + 2]
            && s[3] == b@[off as int + 3]);
    }
    r
}

/// Reads the little-endian `u64` at byte offset `off` of `b`.
pub fn read_u64_le(b: &Vec<u8>, off: usize) -> (r: u64)
    requires
        off + 8 <= b@.len(),
    ensures
        r == u64_of_le(b@.subrange(off as int, off as int + 8)),
{
    let len: usize = b.len();
    let lo = read_u32_le(b, off);
    let hi = read_u32_le(b, off + 4);
    let r = (lo as u64) | ((hi as u64) << 32);
    proof {
        let s = b@.subrange(off as int, off as int + 8);
        let l = b@.subrange(off as int, off as int + 4);
        let h = b@.subrange(off as int + 4, off as int + 8);
        assert(s[0] == l[0] && s[1] == l[1] && s[2] == l[2] && s[3] == l[3]);
        assert(s[4] == h[0] && s[5] == h[1] && s[6] == h[2] && s[7] == h[3]);
        assert(((u32_of_le(l) as u64) | ((u32_of_le(h) as u64) << 32)) == u64_of_le(s)) by {
            let b0 = s[0] as u64;
            let b1 = s[1] as u64;
            let b2 = s[2] as u64;
            let b3 = s[3] as u64;
            let b4 = s[4] as u64;
            let b5 = s[5] as u64;
            let b6 = s[6] as u64;
            let b7 = s[7] as u64;
            assert(b0 < 256 && b1 < 256 && b2 < 256 && b3 < 256 && b4 < 256 && b5 < 256 && b6
                < 256 && b7 < 256);
            assert((((b0 as u32) | ((b1 as u32) << 8) | ((b2 as u32) << 16) | ((b3 as u32) << 24))
                as u64) | ((((b4 as u32) | ((b5 as u32) << 8) | ((b6 as u32) << 16) | ((b7 as u32)
                << 24)) as u64) << 32) == b0 | (b1 << 8) | (b2 << 16) | (b3 << 24) | (b4 << 32) | (
            b5 << 40) | (b6 << 48) | (b7 << 56)) by (bit_vector)
                requires
                    b0 < 256 && b1 < 256 && b2 < 256 && b3 < 256 && b4 < 256 && b5 < 256 && b6
                        < 256 && b7 < 256,
            ;
        }
    }
    r
}

/// Reads the little-endian `i32` at byte offset `off` of `b`.
pub fn read_i32_le(b: &Vec<u8>, off: usize) -> (r: i32)
    requires
        off + 4 <= b@.len(),
    ensures
        r == i32_of_le(b@.subrange(off as int, off as int + 4)),
{
    read_u32_le(b, off) as i32
}

/// Splits `b` into its consecutive `size`-byte chunks, dropping any trailing
/// bytes that do not fill a whole chunk.
pub fn chunk_bytes(b: &Vec<u8>, size: usize) -> (r: Vec<Vec<u8>>)
    requires
        size > 0,
    ensures
        r@.len() == b@.len() / size as nat,
        forall|i: int|
            0 <= i < r@.len() ==> r@[i]@ == chunk_at(b@, size as nat, i as nat),
{
    let count: usize = b.len() / size;
    let mut r: Vec<Vec<u8>> = Vec::new();
    let mut n: usize = 0;
    while n < count
        invariant
            size > 0,
            b@.len() <= usize::MAX,
            count == b@.len() / size as nat,
            n <= count,
            r@.len() == n,
            forall|i: int|
                0 <= i < n as int ==> r@[i]@ == chunk_at(b@, size as nat, i as nat),
        decreases count - n,
    {
        let mut chunk: Vec<u8> = Vec::new();
        let mut j: usize = 0;
        proof {
            assert(n < count);
            assert((n as nat) * (size as nat) + size as nat <= b@.len()) by (nonlinear_arith)
                requires
                    size > 0,
                    (n as nat) < b@.len() / (size as nat),
            ;
        }
        while j < size
            invariant
                size > 0,
                b@.len() <= usize::MAX,
                n * size + size <= b@.len(),
                j <= size,
                chunk@.len() == j,
                forall|i: int| 0 <= i < j as int ==> chunk@[i] == b@[n as int * size as int + i],
            decreases size - j,
        {
            chunk.push(b[n * size + j]);
            j += 1;
        }
        proof {
            assert(chunk@ =~= chunk_at(b@, size as nat, n as nat));
        }
        r.push(chunk);
        n += 1;
    }
    r
}

/// Parses a payload of consecutive little-endian `u32` values, dropping any
/// trailing bytes that do not fill a whole value.
pub fn parse_u32_list(b: &Vec<u8>) -> (r: Vec<u32>)
    ensures
        r@.len() == b@.len() / 4,
        forall|i: int| 0 <= i < r@.len() ==> r@[i] == u32_of_le(chunk_at(b@, 4, i as nat)),
{
    let count: usize = b.len() / 4;
    let mut r: Vec<u32> = Vec::new();
    let mut n: usize = 0;
    while n < count
        invariant
            b@.len() <= usize::MAX,
            count == b@.len() / 4,
            n <= count,
            r@.len() == n,
            forall|i: int| 0 <= i < n as int ==> r@[i] == u32_of_le(chunk_at(b@, 4, i as nat)),
        decreases count - n,
    {
        proof {
            assert((n as nat) * 4 + 4 <= b@.len()) by (nonlinear_arith)
                requires
                    (n as nat) < b@.len() / 4,
            ;
        }
        let v = read_u32_le(b, n * 4);
        proof {
            assert(b@.subrange(n as int * 4, n as int * 4 + 4) =~= chunk_at(b@, 4, n as nat));
        }
        r.push(v);
        n += 1;
    }
    r
}

/// One channel-description record of a preferred channel layout: the label
/// and flags, and the raw bit patterns of the three coordinates.
#[derive(Clone, Copy, Debug, PartialEq, Eq, Structural)]
pub struct ChannelDescription {
    pub label: u32,
    pub flags: u32,
    pub coord0: u32,
    pub coord1: u32,
    pub coord2: u32,
}

/// A preferred channel layout with its trailing channel descriptions
/// expanded out of the raw payload.
#[derive(Clone, Debug, PartialEq, Eq)]
pub struct ChannelLayout {
    pub tag: u32,
    pub bitmap: u32,
    pub declared_channels: u32,
    pub descriptions: Vec<ChannelDescription>,
}

/// Byte size of the fixed channel-layout header: tag, bitmap and count.
pub const LAYOUT_HEADER_SIZE: usize = 12;

/// Byte size of one trailing channel-description record.
pub const DESCRIPTION_SIZE: usize = 20;

/// The channel-description record at chunk `n` past the layout header.
pub open spec fn spec_description_at(b: Seq<u8>, n: nat) -> ChannelDescription {
    let base: nat = 12 + n * 20;
    ChannelDescription {
        label: u32_of_le(b.subrange(base as int, base as int + 4)),
        flags: u32_of_le(b.subrange(base as int + 4, base as int + 8)),
        coord0: u32_of_le(b.subrange(base as int + 8, base as int + 12)),
        coord1: u32_of_le(b.subrange(base as int + 12, base as int + 16)),
        coord2: u32_of_le(b.subrange(base as int + 16, base as int + 20)),
    }
}

/// How many whole channel-description records follow the header of a
/// payload of `len` bytes.
pub open spec fn spec_implied_channels(len: nat) -> nat {
    (len - 12) as nat / 20
}

/// Whether a channel-layout payload is well formed: it holds at least the
/// header, and the channel count declared in the header equals the count
/// implied by the payload length.
pub open spec fn spec_layout_well_formed(b: Seq<u8>) -> bool {
    b.len() >= 12 && u32_of_le(b.subrange(8, 12)) as nat == spec_implied_channels(b.len())
}

/// Expands a raw preferred-channel-layout payload: the fixed header is
/// decoded, and the count of trailing channel-description records is derived
/// from the payload length, not from a separate field. A payload shorter
/// than the header, or one whose declared channel count does not match the
/// count its length implies, is rejected as badly sized.
pub fn expand_channel_layout(data: &Vec<u8>) -> (r: Result<ChannelLayout, Status>)
    ensures
        r is Ok <==> spec_layout_well_formed(data@),
        r matches Ok(l) ==> {
            &&& l.tag == u32_of_le(data@.subrange(0, 4))
            &&& l.bitmap == u32_of_le(data@.subrange(4, 8))
            &&& l.declared_channels == u32_of_le(data@.subrange(8, 12))
            &&& l.descriptions@.len() == spec_implied_channels(data@.len())
            &&& l.declared_channels as nat == l.descriptions@.len()
            &&& forall|i: int|
                0 <= i < l.descriptions@.len() ==> l.descriptions@[i] == spec_description_at(
                    data@,
                    i as nat,
                )
        },
        r matches Err(s) ==> s == STATUS_BAD_SIZE,
{
    if data.len() < LAYOUT_HEADER_SIZE {
        return Err(STATUS_BAD_SIZE);
    }
    let tag = read_u32_le(data, 0);
    let bitmap = read_u32_le(data, 4);
    let declared = read_u32_le(data, 8);
    let count: usize = (data.len() - LAYOUT_HEADER_SIZE) / DESCRIPTION_SIZE;
    if declared as usize != count {
        return Err(STATUS_BAD_SIZE);
    }
    let mut descriptions: Vec<ChannelDescription> = Vec::new();
    let mut n: usize = 0;
    while n < count
        invariant
            data@.len() <= usize::MAX,
            count == spec_implied_channels(data@.len()),
            data@.len() >= 12,
            n <= count,
            descriptions@.len() == n,
            forall|i: int|
                0 <= i < n as int ==> descriptions@[i] == spec_description_at(data@, i as nat),
        decreases count - n,
    {
        proof {
            assert(12 + (n as nat) * 20 + 20 <= data@.len()) by (nonlinear_arith)
                requires
                    (n as nat) < ((data@.len() - 12) as nat) / 20,
                    data@.len() >= 12,
            ;
        }
        let base: usize = LAYOUT_HEADER_SIZE + n * DESCRIPTION_SIZE;
        let d = ChannelDescription {
            label: read_u32_le(data, base),
            flags: read_u32_le(data, base + 4),
            coord0: read_u32_le(data, base + 8),
            coord1: read_u32_le(data, base + 12),
            coord2: read_u32_le(data, base + 16),
        };
        descriptions.push(d);
        n += 1;
    }
    Ok(ChannelLayout { tag, bitmap, declared_channels: declared, descriptions })
}

} // verus!
