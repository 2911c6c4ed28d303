//! Byte-level snapshot codec.
//!
//! Every multi-byte field of a snapshot is written and read one byte at a
//! time in little-endian order. Reading byte-wise into a locally built
//! value keeps the codec independent of the buffer's alignment: the
//! buffer pointer is never reinterpreted as a header structure.

use vstd::prelude::*;

use crate::plugin_api::StateEnvelope;

verus! {

/// Byte length of an encoded `StateEnvelope` header.
pub const ENVELOPE_HEADER_LEN: usize = 24;

/// The four little-endian bytes of a 32-bit value.
pub open spec fn u32_le(x: u32) -> Seq<u8> {
    seq![
        (x & 0xff) as u8,
        ((x >> 8) & 0xff) as u8,
        ((x >> 16) & 0xff) as u8,
        ((x >> 24) & 0xff) as u8,
    ]
}

/// The eight little-endian bytes of a 64-bit value.
pub open spec fn u64_le(x: u64) -> Seq<u8> {
    seq![
        (x & 0xff) as u8,
        ((x >> 8) & 0xff) as u8,
        ((x >> 16) & 0xff) as u8,
        ((x >> 24) & 0xff) as u8,
        ((x >> 32) & 0xff) as u8,
        ((x >> 40) & 0xff) as u8,
        ((x >> 48) & 0xff) as u8,
        ((x >> 56) & 0xff) as u8,
    ]
}

/// The 32-bit value whose little-endian bytes start at `off` in `s`.
pub open spec fn u32_at(s: Seq<u8>, off: int) -> u32 {
    (s[off] as u32) | ((s[off + 1] as u32) << 8) | ((s[off + 2] as u32) << 16) | ((s[off
        + 3] as u32) << 24)
}

/// The 64-bit value whose little-endian bytes start at `off` in `s`.
pub open spec fn u64_at(s: Seq<u8>, off: int) -> u64 {
    (s[off] as u64) | ((s[off + 1] as u64) << 8) | ((s[off + 2] as u64) << 16) | ((s[off
        + 3] as u64) << 24) | ((s[off + 4] as u64) << 32) | ((s[off + 5] as u64) << 40) | ((s[off
        + 6] as u64) << 48) | ((s[off + 7] as u64) << 56)
}

/// Decoding the four little-endian bytes of a 32-bit value gives the
/// value back.
pub proof fn lemma_u32_le_roundtrip(x: u32)
    ensures
        u32_at(u32_le(x), 0) == x,
{
    let b0 = (x & 0xff) as u8;
    let b1 = ((x >> 8) & 0xff) as u8;
    let b2 = ((x >> 16) & 0xff) as u8;
    let b3 = ((x >> 24) & 0xff) as u8;
    assert((b0 as u32) | ((b1 as u32) << 8) | ((b2 as u32) << 16) | ((b3 as u32) << 24) == x)
        by (bit_vector)
        requires
            b0 == (x & 0xff) as u8,
            b1 == ((x >> 8) & 0xff) as u8,
            b2 == ((x >> 16) & 0xff) as u8,
            b3 == ((x >> 24) & 0xff) as u8,
    ;
}

/// Decoding the eight little-endian bytes of a 64-bit value gives the
/// value back.
pub proof fn lemma_u64_le_roundtrip(x: u64)
    ensures
        u64_at(u64_le(x), 0) == x,
{
    let b0 = (x & 0xff) as u8;
    let b1 = ((x >> 8) & 0xff) as u8;
    let b2 = ((x >> 16) & 0xff) as u8;
    let b3 = ((x >> 24) & 0xff) as u8;
    let b4 = ((x >> 32) & 0xff) as u8;
    let b5 = ((x >> 40) & 0xff) as u8;
    let b6 = ((x >> 48) & 0xff) as u8;
    let b7 = ((x >> 56) & 0xff) as u8;
    assert((b0 as u64) | ((b1 as u64) << 8) | ((b2 as u64) << 16) | ((b3 as u64) << 24) | ((
    b4 as u64) << 32) | ((b5 as u64) << 40) | ((b6 as u64) << 48) | ((b7 as u64) << 56) == x)
        by (bit_vector)
        requires
            b0 == (x & 0xff) as u8,
            b1 == ((x >> 8) & 0xff) as u8,
            b2 == ((x >> 16) & 0xff) as u8,
            b3 == ((x >> 24) & 0xff) as u8,
            b4 == ((x >> 32) & 0xff) as u8,
            b5 == ((x >> 40) & 0xff) as u8,
            b6 == ((x >> 48) & 0xff) as u8,
            b7 == ((x >> 56) & 0xff) as u8,
    ;
}

/// Appends the little-endian bytes of `x` to `out`.
pub fn write_u32_le(out: &mut Vec<u8>, x: u32)
    ensures
        final(out)@ == old(out)@ + u32_le(x),
{
    out.push((x & 0xff) as u8);
    out.push(((x >> 8) & 0xff) as u8);
    out.push(((x >> 16) & 0xff) as u8);
    out.push(((x >> 24) & 0xff) as u8);
    assert(out@ =~= old(out)@ + u32_le(x));
}

/// Appends the little-endian bytes of `x` to `out`.
pub fn write_u64_le(out: &mut Vec<u8>, x: u64)
    ensures
        final(out)@ == old(out)@ + u64_le(x),
{
    out.push((x & 0xff) as u8);
    out.push(((x >> 8) & 0xff) as u8);
    out.push(((x >> 16) & 0xff) as u8);
    out.push(((x >> 24) & 0xff) as u8);
    out.push(((x >> 32) & 0xff) as u8);
    out.push(((x >> 40) & 0xff) as u8);
    out.push(((x >> 48) & 0xff) as u8);
    out.push(((x >> 56) & 0xff) as u8);
    assert(out@ =~= old(out)@ + u64_le(x));
}

/// Reads the 32-bit value whose little-endian bytes start at `off`.
pub fn read_u32_le(bytes: &[u8], off: usize) -> (r: u32)
    requires
        off + 4 <= bytes@.len(),
    ensures
        r == u32_at(bytes@, off as int),
{
    (bytes[off] as u32) | ((bytes[off + 1] as u32) << 8) | ((bytes[off + 2] as u32) << 16) | ((
    bytes[off + 3] as u32) << 24)
}

/// Reads the 64-bit value whose little-endian bytes start at `off`.
pub fn read_u64_le(bytes: &[u8], off: usize) -> (r: u64)
    requires
        off + 8 <= bytes@.len(),
    ensures
        r == u64_at(bytes@, off as int),
{
    (bytes[off] as u64) | ((bytes[off + 1] as u64) << 8) | ((bytes[off + 2] as u64) << 16) | ((
    bytes[off + 3] as u64) << 24) | ((bytes[off + 4] as u64) << 32) | ((bytes[off
        + 5] as u64) << 40) | ((bytes[off + 6] as u64) << 48) | ((bytes[off + 7] as u64) << 56)
}

/// The 24 header bytes of an envelope: magic, state version, schema
/// hash, payload length, each little endian.
pub open spec fn envelope_bytes(e: StateEnvelope) -> Seq<u8> {
    u32_le(e.magic_header) + u32_le(e.state_version) + u64_le(e.schema_hash) + u64_le(
        e.payload_len,
    )
}

/// The envelope whose encoding starts at `off` in `s`.
pub open spec fn envelope_at(s: Seq<u8>, off: int) -> StateEnvelope {
    StateEnvelope {
        magic_header: u32_at(s, off),
        state_version: u32_at(s, off + 4),
        schema_hash: u64_at(s, off + 8),
        payload_len: u64_at(s, off + 16),
    }
}

/// Appends the header encoding of `e` to `out`.
pub fn encode_envelope(e: &StateEnvelope, out: &mut Vec<u8>)
    ensures
        final(out)@ == old(out)@ + envelope_bytes(*e),
        final(out)@.len() == old(out)@.len() + ENVELOPE_HEADER_LEN,
{
    write_u32_le(out, e.magic_header);
    write_u32_le(out, e.state_version);
    write_u64_le(out, e.schema_hash);
    write_u64_le(out, e.payload_len);
    assert(out@ =~= old(out)@ + envelope_bytes(*e));
}

/// Reads the envelope whose encoding starts at `off`, byte-wise.
pub fn decode_envelope(bytes: &[u8], off: usize) -> (e: StateEnvelope)
    requires
        off + ENVELOPE_HEADER_LEN <= bytes@.len(),
    ensures
        e == envelope_at(bytes@, off as int),
{
    let len = bytes.len();
    assert(off + 16 <= len);
    StateEnvelope {
        magic_header: read_u32_le(bytes, off),
        state_version: read_u32_le(bytes, off + 4),
        schema_hash: read_u64_le(bytes, off + 8),
        payload_len: read_u64_le(bytes, off + 16),
    }
}

/// Decoding an encoded envelope gives the envelope back, wherever the
/// encoding sits inside a larger snapshot.
pub proof fn lemma_envelope_roundtrip(e: StateEnvelope, prefix: Seq<u8>, suffix: Seq<u8>)
    ensures
        envelope_at(prefix + envelope_bytes(e) + suffix, prefix.len() as int) == e,
{
    let s = prefix + envelope_bytes(e) + suffix;
    let off = prefix.len() as int;
    let eb = envelope_bytes(e);
    assert forall|i: int| 0 <= i < 24 implies s[off + i] == eb[i] by {}
    assert(u32_at(s, off) == u32_at(u32_le(e.magic_header), 0)) by {
        assert forall|i: int| 0 <= i < 4 implies eb[i] == u32_le(e.magic_header)[i] by {}
    }
    assert(u32_at(s, off + 4) == u32_at(u32_le(e.state_version), 0)) by {
        assert forall|i: int| 0 <= i < 4 implies eb[4 + i] == u32_le(e.state_version)[i] by {}
    }
    assert(u64_at(s, off + 8) == u64_at(u64_le(e.schema_hash), 0)) by {
        assert forall|i: int| 0 <= i < 8 implies eb[8 + i] == u64_le(e.schema_hash)[i] by {}
    }
    assert(u64_at(s, off + 16) == u64_at(u64_le(e.payload_len), 0)) by {
        assert forall|i: int| 0 <= i < 8 implies eb[16 + i] == u64_le(e.payload_len)[i] by {}
    }
    lemma_u32_le_roundtrip(e.magic_header);
    lemma_u32_le_roundtrip(e.state_version);
    lemma_u64_le_roundtrip(e.schema_hash);
    lemma_u64_le_roundtrip(e.payload_len);
}

} // verus!
