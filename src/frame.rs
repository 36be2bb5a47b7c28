//! Length-prefixed framing of the control channel: a frame is a big-endian
//! `u32` length followed by that many payload bytes.
use vstd::prelude::*;

verus! {

/// Largest payload a frame may carry; it only bounds what a reader allocates.
pub const MAX_PACKET_SIZE: usize = 1048576;

/// Why a frame header was refused.
#[derive(Clone, Copy, Debug, PartialEq, Eq, Structural)]
pub enum FrameError {
    /// The header announced an empty payload.
    Empty,
    /// The header announced more than `MAX_PACKET_SIZE` bytes.
    TooLarge,
}

/// The four big-endian bytes of `n`.
pub open spec fn be_bytes(n: u32) -> Seq<u8> {
    seq![((n >> 24u32) & 0xffu32) as u8, ((n >> 16u32) & 0xffu32) as u8,
        ((n >> 8u32) & 0xffu32) as u8, (n & 0xffu32) as u8]
}

/// The number that four big-endian bytes spell.
pub open spec fn be_value(b0: u8, b1: u8, b2: u8, b3: u8) -> u32 {
    ((b0 as u32) << 24u32) | ((b1 as u32) << 16u32) | ((b2 as u32) << 8u32) | (b3 as u32)
}

/// The length announced by the first four bytes of `b`.
pub open spec fn header_value(b: Seq<u8>) -> nat
    recommends
        b.len() >= 4,
{
    be_value(b[0], b[1], b[2], b[3]) as nat
}

pub open spec fn valid_payload_len(n: nat) -> bool {
    0 < n && n <= MAX_PACKET_SIZE
}

/// The frame that carries `payload`.
pub open spec fn frame_of(payload: Seq<u8>) -> Seq<u8> {
    be_bytes(payload.len() as u32) + payload
}

proof fn lemma_be_round_trip(n: u32)
    ensures
        be_value(be_bytes(n)[0], be_bytes(n)[1], be_bytes(n)[2], be_bytes(n)[3]) == n,
{
    let b0 = ((n >> 24u32) & 0xffu32) as u8;
    let b1 = ((n >> 16u32) & 0xffu32) as u8;
    let b2 = ((n >> 8u32) & 0xffu32) as u8;
    let b3 = (n & 0xffu32) as u8;
    assert(((b0 as u32) << 24u32) | ((b1 as u32) << 16u32) | ((b2 as u32) << 8u32) | (b3 as u32)
        == n) by (bit_vector)
        requires
            b0 == ((n >> 24u32) & 0xffu32) as u8,
            b1 == ((n >> 16u32) & 0xffu32) as u8,
            b2 == ((n >> 8u32) & 0xffu32) as u8,
            b3 == (n & 0xffu32) as u8,
    ;
}

/// Reading the header of a frame gives back the payload's length, and the
/// bytes after the header are the payload, whatever follows the frame.
pub proof fn lemma_frame_round_trip(payload: Seq<u8>, rest: Seq<u8>)
    requires
        valid_payload_len(payload.len()),
    ensures
        header_value(frame_of(payload) + rest) == payload.len(),
        (frame_of(payload) + rest).subrange(4, 4 + payload.len() as int) == payload,
        (frame_of(payload) + rest).subrange(4 + payload.len() as int, (frame_of(payload)
            + rest).len() as int) == rest,
{
    let n = payload.len() as u32;
    lemma_be_round_trip(n);
    let f = frame_of(payload) + rest;
    assert(f.subrange(4, 4 + payload.len() as int) =~= payload);
    assert(f.subrange(4 + payload.len() as int, f.len() as int) =~= rest);
}

/// Frames `payload`: its length in four big-endian bytes, then the payload.
pub fn encode_frame(payload: &[u8]) -> (r: Vec<u8>)
    requires
        payload@.len() <= MAX_PACKET_SIZE,
    ensures
        r@ == frame_of(payload@),
{
    let n = payload.len() as u32;
    let mut out: Vec<u8> = Vec::with_capacity(payload.len() + 4);
    out.push(((n >> 24u32) & 0xffu32) as u8);
    out.push(((n >> 16u32) & 0xffu32) as u8);
    out.push(((n >> 8u32) & 0xffu32) as u8);
    out.push((n & 0xffu32) as u8);
    assert(out@ =~= be_bytes(n));
    let mut i: usize = 0;
    while i < payload.len()
        invariant
            i <= payload@.len(),
            payload@.len() <= MAX_PACKET_SIZE,
            n == payload@.len() as u32,
            out@ =~= be_bytes(n) + payload@.subrange(0, i as int),
        decreases payload@.len() - i,
    {
        out.push(payload[i]);
        i = i + 1;
        assert(out@ =~= be_bytes(n) + payload@.subrange(0, i as int));
    }
    assert(payload@.subrange(0, i as int) =~= payload@);
    out
}

/// Checks a frame header: the payload length it announces, or why a reader
/// must give up on the stream.
pub fn frame_length(header: &[u8; 4]) -> (r: Result<usize, FrameError>)
    ensures
        match r {
            Ok(n) => n as nat == header_value(header@) && valid_payload_len(n as nat),
            Err(FrameError::Empty) => header_value(header@) == 0,
            Err(FrameError::TooLarge) => header_value(header@) > MAX_PACKET_SIZE,
        },
{
    let n: u32 = ((header[0] as u32) << 24u32) | ((header[1] as u32) << 16u32) | ((header[2] as u32)
        << 8u32) | (header[3] as u32);
    if n == 0 {
        Err(FrameError::Empty)
    } else if n as usize > MAX_PACKET_SIZE {
        Err(FrameError::TooLarge)
    } else {
        Ok(n as usize)
    }
}

/// What a reader makes of the bytes it holds.
#[derive(Debug)]
pub enum FrameRead {
    /// More bytes are needed before a frame is complete.
    Incomplete,
    /// The header is refused: the stream is dead.
    Invalid(FrameError),
    /// A whole frame: its payload and the number of bytes it took.
    Complete { payload: Vec<u8>, consumed: usize },
}

/// Reads the first frame out of `buf`.
pub fn read_frame(buf: &[u8]) -> (r: FrameRead)
    ensures
        buf@.len() < 4 ==> r is Incomplete,
        buf@.len() >= 4 ==> match r {
            FrameRead::Incomplete => valid_payload_len(header_value(buf@)) && buf@.len() < 4
                + header_value(buf@),
            FrameRead::Invalid(FrameError::Empty) => header_value(buf@) == 0,
            FrameRead::Invalid(FrameError::TooLarge) => header_value(buf@) > MAX_PACKET_SIZE,
            FrameRead::Complete { payload, consumed } => valid_payload_len(header_value(buf@))
                && consumed == 4 + header_value(buf@) && consumed <= buf@.len() && payload@
                == buf@.subrange(4, consumed as int),
        },
{
    if buf.len() < 4 {
        return FrameRead::Incomplete;
    }
    let header: [u8; 4] = [buf[0], buf[1], buf[2], buf[3]];
    assert(header@ =~= buf@.subrange(0, 4));
    match frame_length(&header) {
        Err(e) => FrameRead::Invalid(e),
        Ok(n) => {
            if buf.len() - 4 < n {
                FrameRead::Incomplete
            } else {
                let mut payload: Vec<u8> = Vec::with_capacity(n);
                let mut i: usize = 4;
                while i < 4 + n
                    invariant
                        n <= MAX_PACKET_SIZE,
                        4 <= i <= 4 + n,
                        4 + n <= buf@.len(),
                        payload@ =~= buf@.subrange(4, i as int),
                    decreases 4 + n - i,
                {
                    payload.push(buf[i]);
                    i = i + 1;
                }
                FrameRead::Complete { payload, consumed: 4 + n }
            }
        },
    }
}

} // verus!

verus! {

/// Failures of the guest's side of the channel.
#[derive(Clone, Copy, Debug, PartialEq, Eq, Structural)]
pub enum CommErrors {
    UnableToConnect,
    IoError,
    HostDeserializationError,
}

/// The guest's check of a header from the host: a refused length is a
/// deserialization failure.
pub fn read_packet_length(header: &[u8; 4]) -> (r: Result<usize, CommErrors>)
    ensures
        valid_payload_len(header_value(header@)) ==> r == Ok::<usize, CommErrors>(
            header_value(header@) as usize,
        ),
        !valid_payload_len(header_value(header@)) ==> r == Err::<usize, CommErrors>(
            CommErrors::HostDeserializationError,
        ),
{
    match frame_length(header) {
        Ok(n) => Ok(n),
        Err(_) => Err(CommErrors::HostDeserializationError),
    }
}

} // verus!
