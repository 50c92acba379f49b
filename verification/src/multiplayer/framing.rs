use byteorder::{ByteOrder, LittleEndian};
use vstd::prelude::*;

verus! {

/// Number of bytes of the length prefix of a frame.
pub const PREFIX_LEN: usize = 4;

/// The four bytes of `n`, least significant first.
pub open spec fn le_bytes(n: u32) -> Seq<u8> {
    seq![
        (n % 256) as u8,
        ((n / 256) % 256) as u8,
        ((n / 65536) % 256) as u8,
        ((n / 16777216) % 256) as u8,
    ]
}

/// The number whose four bytes, least significant first, begin `bytes`.
pub open spec fn le_value(bytes: Seq<u8>) -> int {
    bytes[0] + 256 * bytes[1] + 65536 * bytes[2] + 16777216 * bytes[3]
}

/// A frame: the length of the payload in four bytes, then the payload.
pub open spec fn framed(payload: Seq<u8>) -> Seq<u8> {
    le_bytes(payload.len() as u32) + payload
}

/// Trusted: calls `byteorder::LittleEndian::write_u32`, which copies the
/// little-endian bytes of `n` over the first four bytes of the buffer and
/// leaves the rest as it was; it panics on a shorter buffer.
#[verifier::external_body]
fn write_u32_le(buf: &mut Vec<u8>, n: u32)
    requires
        old(buf)@.len() >= 4,
    ensures
        final(buf)@ == le_bytes(n) + old(buf)@.subrange(4, old(buf)@.len() as int),
{
    LittleEndian::write_u32(buf, n)
}

/// Trusted: calls `byteorder::LittleEndian::read_u32`, which reads the first
/// four bytes of the buffer as a little-endian number; it panics on a
/// shorter buffer.
#[verifier::external_body]
fn read_u32_le(buf: &[u8]) -> (n: u32)
    requires
        buf@.len() >= 4,
    ensures
        n == le_value(buf@),
{
    LittleEndian::read_u32(buf)
}

/// Frames a payload for the stream: its length as four little-endian bytes,
/// followed by the payload. A payload whose length does not fit the prefix
/// cannot be framed.
pub fn frame(payload: &[u8]) -> (r: Option<Vec<u8>>)
    ensures
        payload@.len() <= u32::MAX ==> r.is_some() && r.unwrap()@ == framed(payload@),
        payload@.len() > u32::MAX ==> r.is_none(),
{
    if payload.len() > u32::MAX as usize {
        return None;
    }
    let mut data: Vec<u8> = Vec::new();
    let mut i: usize = 0;
    while i < PREFIX_LEN
        invariant
            i <= PREFIX_LEN,
            data@.len() == i,
        decreases PREFIX_LEN - i,
    {
        data.push(0);
        i += 1;
    }
    write_u32_le(&mut data, payload.len() as u32);
    let mut k: usize = 0;
    while k < payload.len()
        invariant
            k <= payload@.len(),
            payload@.len() <= u32::MAX,
            data@ == le_bytes(payload@.len() as u32) + payload@.subrange(0, k as int),
        decreases payload@.len() - k,
    {
        data.push(payload[k]);
        assert(data@ =~= le_bytes(payload@.len() as u32) + payload@.subrange(0, k + 1));
        k += 1;
    }
    assert(payload@.subrange(0, k as int) =~= payload@);
    Some(data)
}

/// Reads the length of the payload from the prefix of a frame. Fewer than
/// four bytes hold no length.
pub fn payload_len(header: &[u8]) -> (r: Option<usize>)
    ensures
        header@.len() < PREFIX_LEN ==> r.is_none(),
        header@.len() >= PREFIX_LEN ==> r == Some(le_value(header@) as usize),
{
    if header.len() < PREFIX_LEN {
        return None;
    }
    let n = read_u32_le(header);
    Some(n as usize)
}

/// Takes the payload out of a frame. The bytes are a frame when they hold
/// the prefix and exactly as many bytes after it as the prefix says.
pub fn unframe(bytes: &[u8]) -> (r: Option<Vec<u8>>)
    ensures
        match r {
            Some(payload) => bytes@.len() >= PREFIX_LEN && payload@.len() == le_value(bytes@)
                && payload@ == bytes@.subrange(PREFIX_LEN as int, bytes@.len() as int),
            None => bytes@.len() < PREFIX_LEN || bytes@.len() - PREFIX_LEN != le_value(bytes@),
        },
{
    match payload_len(bytes) {
        None => None,
        Some(len) => {
            if bytes.len() - PREFIX_LEN != len {
                return None;
            }
            let mut payload: Vec<u8> = Vec::new();
            let mut k: usize = PREFIX_LEN;
            while k < bytes.len()
                invariant
                    PREFIX_LEN <= k <= bytes@.len(),
                    payload@ == bytes@.subrange(PREFIX_LEN as int, k as int),
                decreases bytes@.len() - k,
            {
                payload.push(bytes[k]);
                assert(payload@ =~= bytes@.subrange(PREFIX_LEN as int, k + 1));
                k += 1;
            }
            Some(payload)
        },
    }
}

/// The four bytes of a number give the number back.
pub proof fn lemma_le_round_trip(n: u32)
    ensures
        le_bytes(n).len() == 4,
        le_value(le_bytes(n)) == n,
{
    assert(n == (n % 256) + 256 * ((n / 256) % 256) + 65536 * ((n / 65536) % 256) + 16777216 * ((n
        / 16777216) % 256)) by (nonlinear_arith)
        requires
            0 <= n <= 0xffff_ffff,
    ;
}

/// A framed payload is a frame, and taking it apart gives the payload back.
pub proof fn lemma_frame_round_trip(payload: Seq<u8>)
    requires
        payload.len() <= u32::MAX,
    ensures
        framed(payload).len() == PREFIX_LEN + payload.len(),
        le_value(framed(payload)) == payload.len(),
        framed(payload).subrange(PREFIX_LEN as int, framed(payload).len() as int) == payload,
{
    lemma_le_round_trip(payload.len() as u32);
    assert(framed(payload).subrange(PREFIX_LEN as int, framed(payload).len() as int) =~= payload);
}

} // verus!
