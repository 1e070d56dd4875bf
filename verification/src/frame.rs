//! The wire layout of one message: a four-byte big-endian length, then
//! exactly that many payload bytes.

use vstd::prelude::*;

verus! {

/// The number of bytes of a length prefix.
pub const PREFIX_LEN: usize = 4;

/// The largest payload length that a prefix can announce.
pub const MAX_PREFIXED_LEN: u64 = 0xFFFF_FFFF;

/// Why a frame could not be written or read.
#[derive(Clone, Copy, Debug, PartialEq, Eq, Structural)]
pub enum FrameError {
    /// The stream ended inside a prefix or inside a payload.
    Truncated,
    /// The prefix announces more bytes than the reader accepts.
    TooLarge,
    /// The payload is longer than a prefix can announce.
    Unrepresentable,
}

/// The prefix that announces `len` payload bytes.
pub open spec fn prefix_of(len: nat) -> Seq<u8> {
    seq![
        ((len / 0x100_0000) % 0x100) as u8,
        ((len / 0x1_0000) % 0x100) as u8,
        ((len / 0x100) % 0x100) as u8,
        (len % 0x100) as u8,
    ]
}

/// The payload length that a prefix announces.
pub open spec fn declared_len(prefix: Seq<u8>) -> nat
    recommends
        prefix.len() == 4,
{
    (prefix[0] * 0x100_0000 + prefix[1] * 0x1_0000 + prefix[2] * 0x100 + prefix[3]) as nat
}

/// The bytes on the wire for one payload: its prefix, then the payload,
/// and nothing else.
pub open spec fn wire_of(payload: Seq<u8>) -> Seq<u8> {
    prefix_of(payload.len()) + payload
}

/// What reading one frame from the front of `stream` gives, where at most
/// `max_size` payload bytes are accepted: the payload and the number of
/// bytes consumed, or the reason for the failure.
///
/// A stream that holds nothing at all yields the empty frame. The limit is
/// applied to the announced length alone, before the payload is looked at.
pub open spec fn framed(stream: Seq<u8>, max_size: nat) -> Result<(Seq<u8>, nat), FrameError> {
    if stream.len() == 0 {
        Ok((Seq::empty(), 0))
    } else if stream.len() < 4 {
        Err(FrameError::Truncated)
    } else {
        let declared = declared_len(stream.subrange(0, 4));
        if declared > max_size {
            Err(FrameError::TooLarge)
        } else if stream.len() < 4 + declared {
            Err(FrameError::Truncated)
        } else {
            Ok((stream.subrange(4, 4 + declared as int), 4 + declared))
        }
    }
}

/// The prefix for a payload of `len` bytes, or `Unrepresentable` where
/// `len` does not fit in four bytes.
pub fn length_prefix(len: usize) -> (r: Result<Vec<u8>, FrameError>)
    ensures
        len <= MAX_PREFIXED_LEN ==> r is Ok && r->Ok_0@ == prefix_of(len as nat),
        len > MAX_PREFIXED_LEN ==> r == Err::<Vec<u8>, FrameError>(FrameError::Unrepresentable),
{
    let n: u64 = len as u64;
    if n > MAX_PREFIXED_LEN {
        return Err(FrameError::Unrepresentable);
    }
    let mut prefix: Vec<u8> = Vec::new();
    prefix.push(((n / 0x100_0000) % 0x100) as u8);
    prefix.push(((n / 0x1_0000) % 0x100) as u8);
    prefix.push(((n / 0x100) % 0x100) as u8);
    prefix.push((n % 0x100) as u8);
    assert(prefix@ =~= prefix_of(len as nat));
    Ok(prefix)
}

/// The payload length that the first four bytes of `stream` announce, or
/// `Truncated` where the stream holds fewer than four bytes.
pub fn declared_length(stream: &Vec<u8>) -> (r: Result<usize, FrameError>)
    ensures
        stream@.len() >= 4 ==> r == Ok::<usize, FrameError>(
            declared_len(stream@.subrange(0, 4)) as usize,
        ) && declared_len(stream@.subrange(0, 4)) <= MAX_PREFIXED_LEN,
        stream@.len() < 4 ==> r == Err::<usize, FrameError>(FrameError::Truncated),
{
    if stream.len() < PREFIX_LEN {
        return Err(FrameError::Truncated);
    }
    let b0: u64 = stream[0] as u64;
    let b1: u64 = stream[1] as u64;
    let b2: u64 = stream[2] as u64;
    let b3: u64 = stream[3] as u64;
    let n: u64 = b0 * 0x100_0000 + b1 * 0x1_0000 + b2 * 0x100 + b3;
    Ok(n as usize)
}

/// Whether a reader that accepts `max_size` payload bytes goes on to read a
/// payload of the announced length. The answer depends on the announced
/// length alone.
pub fn check_declared(declared: usize, max_size: usize) -> (r: Result<usize, FrameError>)
    ensures
        declared <= max_size ==> r == Ok::<usize, FrameError>(declared),
        declared > max_size ==> r == Err::<usize, FrameError>(FrameError::TooLarge),
{
    if declared > max_size {
        Err(FrameError::TooLarge)
    } else {
        Ok(declared)
    }
}

/// Lays a payload out on the wire, or fails with `Unrepresentable` where the
/// payload is longer than a prefix can announce. No limit other than that
/// one applies to what is written.
pub fn encode_frame(payload: &Vec<u8>) -> (r: Result<Vec<u8>, FrameError>)
    ensures
        payload@.len() <= MAX_PREFIXED_LEN ==> r is Ok && r->Ok_0@ == wire_of(payload@),
        payload@.len() > MAX_PREFIXED_LEN ==> r == Err::<Vec<u8>, FrameError>(
            FrameError::Unrepresentable,
        ),
{
    let mut wire = match length_prefix(payload.len()) {
        Ok(prefix) => prefix,
        Err(e) => {
            return Err(e);
        },
    };
    let mut i: usize = 0;
    while i < payload.len()
        invariant
            i <= payload@.len(),
            wire@ == prefix_of(payload@.len()) + payload@.subrange(0, i as int),
        decreases payload@.len() - i,
    {
        wire.push(payload[i]);
        i = i + 1;
        assert(wire@ =~= prefix_of(payload@.len()) + payload@.subrange(0, i as int));
    }
    assert(payload@.subrange(0, i as int) =~= payload@);
    Ok(wire)
}

/// Reads one frame from the front of `stream`, accepting at most `max_size`
/// payload bytes. Gives the payload and the number of bytes consumed.
pub fn decode_frame(stream: &Vec<u8>, max_size: usize) -> (r: Result<(Vec<u8>, usize), FrameError>)
    ensures
        match framed(stream@, max_size as nat) {
            Ok((payload, consumed)) => r is Ok && r->Ok_0.0@ == payload && r->Ok_0.1 == consumed,
            Err(e) => r == Err::<(Vec<u8>, usize), FrameError>(e),
        },
{
    if stream.len() == 0 {
        return Ok((Vec::new(), 0));
    }
    let announced = match declared_length(stream) {
        Ok(n) => n,
        Err(e) => {
            return Err(e);
        },
    };
    let declared = match check_declared(announced, max_size) {
        Ok(n) => n,
        Err(e) => {
            return Err(e);
        },
    };
    if stream.len() - PREFIX_LEN < declared {
        return Err(FrameError::Truncated);
    }
    let end: usize = PREFIX_LEN + declared;
    let mut payload: Vec<u8> = Vec::new();
    let mut i: usize = PREFIX_LEN;
    while i < end
        invariant
            4 <= i <= end <= stream@.len(),
            payload@ == stream@.subrange(4, i as int),
        decreases end - i,
    {
        payload.push(stream[i]);
        i = i + 1;
        assert(payload@ =~= stream@.subrange(4, i as int));
    }
    assert(payload@ =~= stream@.subrange(4, 4 + declared));
    Ok((payload, end))
}

/// A prefix announces the length it was made for.
pub proof fn prefix_announces_its_length(len: nat)
    requires
        len <= MAX_PREFIXED_LEN,
    ensures
        prefix_of(len).len() == 4,
        declared_len(prefix_of(len)) == len,
{
}

/// What is written is read back unchanged: reading the wire form of a
/// payload that the reader accepts gives that payload and consumes exactly
/// the frame, whatever bytes follow it on the stream.
pub proof fn frame_round_trip(payload: Seq<u8>, rest: Seq<u8>, max_size: nat)
    requires
        payload.len() <= max_size,
        payload.len() <= MAX_PREFIXED_LEN,
    ensures
        framed(wire_of(payload) + rest, max_size) == Ok::<(Seq<u8>, nat), FrameError>(
            (payload, 4 + payload.len()),
        ),
{
    let stream = wire_of(payload) + rest;
    prefix_announces_its_length(payload.len());
    assert(stream.subrange(0, 4) =~= prefix_of(payload.len()));
    assert(stream.subrange(4, 4 + payload.len() as int) =~= payload);
}

/// A frame that announces more than the limit is refused on its prefix
/// alone: whatever follows the prefix, and whether or not the announced
/// bytes are there, the outcome is `TooLarge`.
pub proof fn oversize_refused_on_prefix(prefix: Seq<u8>, rest: Seq<u8>, max_size: nat)
    requires
        prefix.len() == 4,
        declared_len(prefix) > max_size,
    ensures
        framed(prefix + rest, max_size) == Err::<(Seq<u8>, nat), FrameError>(FrameError::TooLarge),
{
    assert((prefix + rest).subrange(0, 4) =~= prefix);
}

/// A stream that ends before any prefix and a stream that holds a prefix of
/// zero give the same payload, the empty one.
pub proof fn clean_close_reads_as_empty_frame(max_size: nat)
    ensures
        framed(Seq::empty(), max_size) == Ok::<(Seq<u8>, nat), FrameError>((Seq::empty(), 0)),
        framed(prefix_of(0), max_size) == Ok::<(Seq<u8>, nat), FrameError>((Seq::empty(), 4)),
{
    let zero = prefix_of(0);
    assert(zero.subrange(0, 4) =~= zero);
    assert(zero.subrange(4, 4) =~= Seq::<u8>::empty());
}

} // verus!
