//! Byte-level framing: every message on the host streams is a two-byte
//! big-endian length followed by exactly that many payload bytes.

use vstd::prelude::*;

verus! {

/// Why a frame could not be taken off the front of the input.
#[derive(Clone, Copy, Debug, PartialEq, Eq)]
pub enum FrameError {
    /// No bytes at all where a header was expected: the stream closed cleanly.
    EndOfStream,
    /// A single byte where a two-byte header was expected: byte alignment
    /// with the stream is lost and cannot be recovered.
    TruncatedHeader,
    /// The header declared more payload bytes than the stream still held.
    /// Recoverable by policy: the caller reports it and resynchronizes by
    /// reading a fresh header.
    IncompletePayload { declared: u16, available: usize },
}

/// The payload length declared by the two header bytes at the front of `input`.
pub open spec fn frame_len(input: Seq<u8>) -> int
    recommends
        input.len() >= 2,
{
    input[0] * 256 + input[1]
}

/// The payload of the frame at the front of `input`, if a whole frame is there.
pub open spec fn frame_decode(input: Seq<u8>) -> Option<Seq<u8>> {
    if input.len() >= 2 && frame_len(input) + 2 <= input.len() {
        Some(input.subrange(2, 2 + frame_len(input)))
    } else {
        None
    }
}

/// The wire bytes of one frame: big-endian length header, then the payload.
pub open spec fn frame_bytes(payload: Seq<u8>) -> Seq<u8>
    recommends
        payload.len() <= 0xFFFF,
{
    seq![(payload.len() / 256) as u8, (payload.len() % 256) as u8] + payload
}

/// Length declared by a two-byte big-endian frame header.
pub fn header_length(hi: u8, lo: u8) -> (n: u16)
    ensures
        n == hi * 256 + lo,
{
    (hi as u16) * 256 + (lo as u16)
}

/// Prefix `payload` with its two-byte big-endian length.
pub fn encode_frame(payload: &Vec<u8>) -> (out: Vec<u8>)
    requires
        payload@.len() <= 0xFFFF,
    ensures
        out@ == frame_bytes(payload@),
{
    let n = payload.len();
    let mut out: Vec<u8> = Vec::new();
    out.push((n / 256) as u8);
    out.push((n % 256) as u8);
    let mut i: usize = 0;
    while i < payload.len()
        invariant
            i <= payload@.len(),
            payload@.len() <= 0xFFFF,
            out@ == seq![(payload@.len() / 256) as u8, (payload@.len() % 256) as u8]
                + payload@.take(i as int),
        decreases payload@.len() - i,
    {
        out.push(payload[i]);
        proof {
            assert(payload@.take(i + 1) =~= payload@.take(i as int).push(payload@[i as int]));
        }
        i += 1;
    }
    proof {
        assert(payload@.take(payload@.len() as int) =~= payload@);
    }
    out
}

/// Take one frame off the front of `input`: its payload and how many bytes
/// of `input` the frame occupied.
pub fn decode_frame(input: &Vec<u8>) -> (r: Result<(Vec<u8>, usize), FrameError>)
    ensures
        input@.len() == 0 ==> r == Err::<(Vec<u8>, usize), FrameError>(FrameError::EndOfStream),
        input@.len() == 1 ==> r == Err::<(Vec<u8>, usize), FrameError>(FrameError::TruncatedHeader),
        input@.len() >= 2 && input@.len() - 2 < frame_len(input@) ==> r == Err::<(
            Vec<u8>,
            usize,
        ), FrameError>(
            FrameError::IncompletePayload {
                declared: frame_len(input@) as u16,
                available: (input@.len() - 2) as usize,
            },
        ),
        r is Ok <==> frame_decode(input@) is Some,
        r matches Ok(p) ==> frame_decode(input@) == Some(p.0@) && p.1 == 2 + frame_len(input@),
{
    if input.len() == 0 {
        return Err(FrameError::EndOfStream);
    }
    if input.len() == 1 {
        return Err(FrameError::TruncatedHeader);
    }
    let declared = header_length(input[0], input[1]);
    let n = declared as usize;
    if input.len() - 2 < n {
        return Err(FrameError::IncompletePayload { declared, available: input.len() - 2 });
    }
    let mut payload: Vec<u8> = Vec::new();
    let mut i: usize = 0;
    while i < n
        invariant
            i <= n,
            input@.len() >= 2 + n,
            n == frame_len(input@),
            payload@ == input@.subrange(2, 2 + i as int),
        decreases n - i,
    {
        payload.push(input[2 + i]);
        proof {
            assert(input@.subrange(2, 2 + (i + 1) as int) =~= input@.subrange(
                2,
                2 + i as int,
            ).push(input@[2 + i as int]));
        }
        i += 1;
    }
    Ok((payload, 2 + n))
}

/// Framing round trip, one direction: decoding the wire bytes of a payload
/// gives that payload back unchanged.
pub proof fn lemma_frame_round_trip(payload: Seq<u8>)
    requires
        payload.len() <= 0xFFFF,
    ensures
        frame_decode(frame_bytes(payload)) == Some(payload),
{
    let f = frame_bytes(payload);
    let n = payload.len() as int;
    assert(n / 256 <= 255 && n % 256 <= 255) by (nonlinear_arith)
        requires
            0 <= n <= 0xFFFF,
    ;
    assert(n / 256 * 256 + n % 256 == n) by (nonlinear_arith)
        requires
            0 <= n,
    ;
    assert(frame_len(f) == n);
    assert(f.subrange(2, 2 + n) =~= payload);
}

/// Framing round trip, the other direction: a buffer that holds exactly one
/// whole frame is the wire encoding of that frame's payload.
pub proof fn lemma_frame_bytes_exact(input: Seq<u8>, payload: Seq<u8>)
    requires
        frame_decode(input) == Some(payload),
        input.len() == 2 + frame_len(input),
    ensures
        frame_bytes(payload) == input,
{
    let n = frame_len(input);
    assert(payload =~= input.subrange(2, 2 + n));
    assert(payload.len() == n);
    let a = input[0] as int;
    let b = input[1] as int;
    assert(n == a * 256 + b);
    assert((a * 256 + b) / 256 == a && (a * 256 + b) % 256 == b) by (nonlinear_arith)
        requires
            0 <= a <= 255,
            0 <= b <= 255,
    ;
    assert(frame_bytes(payload) =~= input);
}

} // verus!
