//! SSP wire frames.
//!
//! Upstream (host to phone): `sid: u32 BE | flag: u8 | len: u32 BE | payload`.
//! Downstream (phone to host): `sid: u32 BE | len: u16 BE | chunk`.
use vstd::prelude::*;

use crate::error::{Error, ProtocolFault};

verus! {

/// Largest payload one upstream frame may carry.
pub const MAX_UPSTREAM_PAYLOAD: usize = 0x40_0000;

/// Largest chunk one downstream frame may carry (capture-verified).
pub const MAX_DOWNSTREAM_CHUNK: usize = 32_761;

/// Big-endian bytes of a 32-bit value.
pub open spec fn be32(x: nat) -> Seq<u8> {
    seq![
        ((x / 0x100_0000) % 256) as u8,
        ((x / 0x1_0000) % 256) as u8,
        ((x / 0x100) % 256) as u8,
        (x % 256) as u8,
    ]
}

/// Value of a big-endian byte string.
pub open spec fn be_value(s: Seq<u8>) -> nat
    decreases s.len(),
{
    if s.len() == 0 {
        0
    } else {
        be_value(s.drop_last()) * 256 + s.last() as nat
    }
}

/// The complete upstream frame for a payload.
pub open spec fn upstream_frame(sid: u32, flag: u8, payload: Seq<u8>) -> Seq<u8> {
    be32(sid as nat) + seq![flag] + be32(payload.len()) + payload
}

fn push_be32(out: &mut Vec<u8>, x: u32)
    ensures
        final(out)@ == old(out)@ + be32(x as nat),
{
    out.push((x / 0x100_0000) as u8);
    out.push(((x / 0x1_0000) % 256) as u8);
    out.push(((x / 0x100) % 256) as u8);
    out.push((x % 256) as u8);
    assert(final(out)@ =~= old(out)@ + be32(x as nat));
}

/// Encode one upstream frame; payloads above `MAX_UPSTREAM_PAYLOAD` are refused.
pub fn encode_upstream(sid: u32, flag: u8, payload: &[u8]) -> (result: Result<Vec<u8>, Error>)
    ensures
        payload@.len() > MAX_UPSTREAM_PAYLOAD ==> result == Err::<Vec<u8>, Error>(
            Error::Protocol(ProtocolFault::UpstreamTooLarge),
        ),
        payload@.len() <= MAX_UPSTREAM_PAYLOAD ==> (result matches Ok(frame) && frame@
            == upstream_frame(sid, flag, payload@)),
{
    if payload.len() > MAX_UPSTREAM_PAYLOAD {
        return Err(Error::Protocol(ProtocolFault::UpstreamTooLarge));
    }
    let mut frame: Vec<u8> = Vec::new();
    push_be32(&mut frame, sid);
    frame.push(flag);
    push_be32(&mut frame, payload.len() as u32);
    let ghost head = frame@;
    let mut i: usize = 0;
    while i < payload.len()
        invariant
            i <= payload@.len(),
            frame@ == head + payload@.subrange(0, i as int),
        decreases payload@.len() - i,
    {
        frame.push(payload[i]);
        i = i + 1;
        assert(frame@ =~= head + payload@.subrange(0, i as int));
    }
    assert(payload@.subrange(0, payload@.len() as int) =~= payload@);
    Ok(frame)
}

/// A decoded downstream frame header.
#[derive(Debug, Clone, Copy, PartialEq, Eq, Structural)]
pub struct DownstreamHeader {
    /// Session id the chunk belongs to.
    pub sid: u32,
    /// Number of chunk bytes that follow the header.
    pub chunk_len: usize,
}

/// Decode the six-byte downstream header; a declared chunk length above
/// `MAX_DOWNSTREAM_CHUNK` is refused.
pub fn decode_downstream_header(header: &[u8; 6]) -> (result: Result<DownstreamHeader, Error>)
    ensures
        be_value(header@.subrange(4, 6)) > MAX_DOWNSTREAM_CHUNK ==> result == Err::<
            DownstreamHeader,
            Error,
        >(Error::Protocol(ProtocolFault::DownstreamTooLarge)),
        be_value(header@.subrange(4, 6)) <= MAX_DOWNSTREAM_CHUNK ==> (result matches Ok(h)
            && h.sid as nat == be_value(header@.subrange(0, 4)) && h.chunk_len as nat == be_value(
            header@.subrange(4, 6),
        )),
{
    let ghost h = header@;
    let sid: u32 = (((header[0] as u32) * 256 + header[1] as u32) * 256 + header[2] as u32) * 256
        + header[3] as u32;
    let len: usize = (header[4] as usize) * 256 + header[5] as usize;
    proof {
        reveal_with_fuel(be_value, 5);
        assert(h.subrange(0, 4).drop_last() =~= h.subrange(0, 3));
        assert(h.subrange(0, 3).drop_last() =~= h.subrange(0, 2));
        assert(h.subrange(0, 2).drop_last() =~= h.subrange(0, 1));
        assert(h.subrange(0, 1).drop_last() =~= Seq::<u8>::empty());
        assert(h.subrange(4, 6).drop_last() =~= h.subrange(4, 5));
        assert(h.subrange(4, 5).drop_last() =~= Seq::<u8>::empty());
    }
    if len > MAX_DOWNSTREAM_CHUNK {
        return Err(Error::Protocol(ProtocolFault::DownstreamTooLarge));
    }
    Ok(DownstreamHeader { sid, chunk_len: len })
}

} // verus!
