//! Length-prefixed framing: every frame is a 4-byte big-endian length followed
//! by that many bytes of payload.
use vstd::prelude::*;

verus! {

/// The length of a frame's header.
pub const HEADER_LEN: usize = 4;

/// The four big-endian bytes of `n`.
pub open spec fn be_bytes(n: u32) -> Seq<u8> {
    seq![
        (n / 0x100_0000) as u8,
        (n / 0x1_0000 % 0x100) as u8,
        (n / 0x100 % 0x100) as u8,
        (n % 0x100) as u8,
    ]
}

/// The number that four big-endian bytes stand for.
pub open spec fn be_value(b: Seq<u8>) -> int {
    b[0] as int * 0x100_0000 + b[1] as int * 0x1_0000 + b[2] as int * 0x100 + b[3] as int
}

/// The frame that carries `payload`.
pub open spec fn frame_of(payload: Seq<u8>) -> Seq<u8> {
    be_bytes(payload.len() as u32) + payload
}

/// Reading the bytes of a length gives the length back.
pub proof fn lemma_be_round_trip(n: u32)
    ensures
        be_value(be_bytes(n)) == n as int,
{
    let b = be_bytes(n);
    assert(b[0] as int == n as int / 0x100_0000);
    assert(b[1] as int == n as int / 0x1_0000 % 0x100);
    assert(b[2] as int == n as int / 0x100 % 0x100);
    assert(b[3] as int == n as int % 0x100);
    let x = n as int;
    assert(x / 0x100_0000 * 0x100_0000 + x / 0x1_0000 % 0x100 * 0x1_0000 + x / 0x100 % 0x100 * 0x100
        + x % 0x100 == x) by (nonlinear_arith)
        requires
            0 <= x < 0x1_0000_0000,
    {
        assert(x / 0x100_0000 * 0x100_0000 + x % 0x100_0000 == x);
        assert(x % 0x100_0000 == x / 0x1_0000 % 0x100 * 0x1_0000 + x % 0x1_0000);
        assert(x % 0x1_0000 == x / 0x100 % 0x100 * 0x100 + x % 0x100);
    }
}

/// The header announcing a payload of `len` bytes.
pub fn encode_length(len: u32) -> (r: [u8; 4])
    ensures
        r@ == be_bytes(len),
{
    let r = [
        (len / 0x100_0000) as u8,
        (len / 0x1_0000 % 0x100) as u8,
        (len / 0x100 % 0x100) as u8,
        (len % 0x100) as u8,
    ];
    assert(r@ =~= be_bytes(len));
    r
}

/// The payload length a header announces.
pub fn decode_length(header: [u8; 4]) -> (r: u32)
    ensures
        r as int == be_value(header@),
{
    let b0 = header[0] as u32;
    let b1 = header[1] as u32;
    let b2 = header[2] as u32;
    let b3 = header[3] as u32;
    assert(b0 * 0x100_0000 + b1 * 0x1_0000 + b2 * 0x100 + b3 <= 0xFFFF_FFFF) by (nonlinear_arith)
        requires
            b0 <= 255,
            b1 <= 255,
            b2 <= 255,
            b3 <= 255,
    ;
    b0 * 0x100_0000 + b1 * 0x1_0000 + b2 * 0x100 + b3
}

/// Why a frame could not be built or read.
#[derive(Debug, Clone, Copy, PartialEq, Eq, Structural)]
pub enum FrameError {
    /// The payload is longer than a 4-byte length can announce.
    TooLong,
}

/// The frame that carries `payload`, or `TooLong` when its length does not fit
/// in four bytes.
pub fn encode_frame(payload: &[u8]) -> (r: Result<Vec<u8>, FrameError>)
    ensures
        payload@.len() <= u32::MAX ==> (r matches Ok(f) && f@ == frame_of(payload@)),
        payload@.len() > u32::MAX ==> r == Err::<Vec<u8>, FrameError>(FrameError::TooLong),
{
    if payload.len() > 0xFFFF_FFFF {
        return Err(FrameError::TooLong);
    }
    let header = encode_length(payload.len() as u32);
    let mut out: Vec<u8> = Vec::new();
    let mut i: usize = 0;
    while i < HEADER_LEN
        invariant
            i <= HEADER_LEN,
            out@ == header@.subrange(0, i as int),
        decreases HEADER_LEN - i,
    {
        out.push(header[i]);
        i = i + 1;
        assert(out@ =~= header@.subrange(0, i as int));
    }
    let mut j: usize = 0;
    while j < payload.len()
        invariant
            j <= payload@.len(),
            out@ == header@ + payload@.subrange(0, j as int),
        decreases payload@.len() - j,
    {
        out.push(payload[j]);
        j = j + 1;
        assert(out@ =~= header@ + payload@.subrange(0, j as int));
    }
    assert(payload@.subrange(0, payload@.len() as int) =~= payload@);
    Ok(out)
}

/// Splits the first frame off the front of `buf`: its payload and the number of
/// bytes it took. `None` while the buffer holds no whole frame yet.
pub fn split_frame(buf: &[u8]) -> (r: Option<(Vec<u8>, usize)>)
    ensures
        buf@.len() < 4 ==> r.is_none(),
        buf@.len() >= 4 ==> {
            let n = be_value(buf@.subrange(0, 4));
            &&& (buf@.len() < 4 + n <==> r.is_none())
            &&& r matches Some((p, used)) ==> used == 4 + n && p@ == buf@.subrange(4, 4 + n)
        },
{
    if buf.len() < HEADER_LEN {
        return None;
    }
    let header: [u8; 4] = [buf[0], buf[1], buf[2], buf[3]];
    assert(header@ =~= buf@.subrange(0, 4));
    let n = decode_length(header) as usize;
    if buf.len() - HEADER_LEN < n {
        return None;
    }
    let end: usize = HEADER_LEN + n;
    let mut p: Vec<u8> = Vec::with_capacity(n);
    let mut k: usize = HEADER_LEN;
    while k < end
        invariant
            HEADER_LEN <= k <= end,
            end == 4 + n,
            end <= buf@.len(),
            p@ == buf@.subrange(4, k as int),
        decreases end - k,
    {
        p.push(buf[k]);
        k = k + 1;
        assert(p@ =~= buf@.subrange(4, k as int));
    }
    Some((p, end))
}

/// Framing delimits itself: the first frame split off a frame followed by any
/// bytes is the payload that was framed, and it takes exactly the frame's length.
pub proof fn lemma_frame_round_trip(payload: Seq<u8>, rest: Seq<u8>)
    requires
        payload.len() <= u32::MAX,
    ensures
        ({
            let buf = frame_of(payload) + rest;
            &&& be_value(buf.subrange(0, 4)) == payload.len()
            &&& buf.subrange(4, 4 + payload.len() as int) == payload
            &&& frame_of(payload).len() == 4 + payload.len()
        }),
{
    let buf = frame_of(payload) + rest;
    lemma_be_round_trip(payload.len() as u32);
    assert(buf.subrange(0, 4) =~= be_bytes(payload.len() as u32));
    assert(buf.subrange(4, 4 + payload.len() as int) =~= payload);
}

} // verus!
