//! Frames and snapshot bodies between the members of a cluster.
use crate::big_endian::{
    be_bytes, be_value, law_number_round_trips, lemma_be_bytes_len,
    lemma_byte_capacity_of_machine_numbers, push_be, read_be,
};
use crate::time_span::{TimeSpan, NANOS_PER_MILLI, NANOS_PER_SECOND};
use vstd::prelude::*;

verus! {

pub const MAX_RAFT_FRAME_BYTES: usize = 268_435_456;

pub const MAX_RAFT_SNAPSHOT_BYTES: usize = 268_435_456;

pub const SNAPSHOT_IO_CHUNK_BYTES: usize = 65_536;

pub const RPC_IO_TIMEOUT_SECONDS: u64 = 30;

pub const FRAME_HEADER_BYTES: usize = 4;

/// Why a frame or a snapshot body is refused.
#[derive(Debug, Clone, Copy, PartialEq, Eq, Structural)]
pub enum RaftFrameRefusal {
    FrameTooLarge,
    SnapshotTooLarge,
    SnapshotLengthUnrepresentable,
}

impl RaftFrameRefusal {
    /// The text of a refusal.
    pub open spec fn text(self) -> Seq<char> {
        match self {
            RaftFrameRefusal::FrameTooLarge => "Raft RPC frame exceeds the configured byte limit"@,
            RaftFrameRefusal::SnapshotTooLarge => "Raft snapshot exceeds the configured byte limit"@,
            RaftFrameRefusal::SnapshotLengthUnrepresentable => {
                "Raft snapshot length cannot be represented as usize"@
            },
        }
    }

    pub fn message(self) -> (r: &'static str)
        ensures
            r@ == self.text(),
    {
        match self {
            RaftFrameRefusal::FrameTooLarge => "Raft RPC frame exceeds the configured byte limit",
            RaftFrameRefusal::SnapshotTooLarge => "Raft snapshot exceeds the configured byte limit",
            RaftFrameRefusal::SnapshotLengthUnrepresentable => {
                "Raft snapshot length cannot be represented as usize"
            },
        }
    }
}

/// A frame: the length of the payload in four bytes, most significant first, and the payload.
pub open spec fn frame_bytes(payload: Seq<u8>) -> Seq<u8> {
    be_bytes(payload.len(), FRAME_HEADER_BYTES as nat) + payload
}

/// Put a payload into a frame.
pub fn write_frame(payload: &[u8]) -> (r: Result<Vec<u8>, RaftFrameRefusal>)
    ensures
        match r {
            Ok(frame) => payload@.len() <= MAX_RAFT_FRAME_BYTES && frame@ == frame_bytes(payload@),
            Err(refusal) => payload@.len() > MAX_RAFT_FRAME_BYTES && refusal
                == RaftFrameRefusal::FrameTooLarge,
        },
{
    let length: usize = payload.len();
    if length > MAX_RAFT_FRAME_BYTES {
        return Err(RaftFrameRefusal::FrameTooLarge);
    }
    let mut frame: Vec<u8> = Vec::new();
    push_be(&mut frame, length as u64, FRAME_HEADER_BYTES);
    let ghost header = frame@;
    let mut index: usize = 0;
    assert(header + payload@.take(0) =~= header);
    while index < length
        invariant
            length == payload@.len(),
            index <= length,
            frame@ == header + payload@.take(index as int),
        decreases length - index,
    {
        frame.push(payload[index]);
        index = index + 1;
        assert(frame@ =~= header + payload@.take(index as int));
    }
    assert(payload@.take(length as int) =~= payload@);
    assert(frame@ =~= frame_bytes(payload@));
    Ok(frame)
}

/// Read the payload length that a frame header announces.
pub fn read_frame_length(header: &[u8; 4]) -> (r: Result<usize, RaftFrameRefusal>)
    ensures
        match r {
            Ok(length) => length == be_value(header@) && length <= MAX_RAFT_FRAME_BYTES,
            Err(refusal) => be_value(header@) > MAX_RAFT_FRAME_BYTES && refusal
                == RaftFrameRefusal::FrameTooLarge,
        },
{
    let length: u64 = read_be(header.as_slice(), 0, FRAME_HEADER_BYTES);
    assert(header@.subrange(0, 4) =~= header@);
    if length > MAX_RAFT_FRAME_BYTES as u64 {
        return Err(RaftFrameRefusal::FrameTooLarge);
    }
    Ok(length as usize)
}

/// A frame that was written announces exactly its payload: the header gives the length, and the
/// rest is the payload.
pub proof fn law_frames_round_trip(payload: Seq<u8>)
    requires
        payload.len() <= MAX_RAFT_FRAME_BYTES,
    ensures
        frame_bytes(payload).len() == FRAME_HEADER_BYTES + payload.len(),
        be_value(frame_bytes(payload).take(FRAME_HEADER_BYTES as int)) == payload.len(),
        frame_bytes(payload).skip(FRAME_HEADER_BYTES as int) == payload,
{
    lemma_be_bytes_len(payload.len(), 4);
    lemma_byte_capacity_of_machine_numbers();
    law_number_round_trips(payload.len(), 4);
    assert(frame_bytes(payload).take(4) =~= be_bytes(payload.len(), 4));
    assert(frame_bytes(payload).skip(4) =~= payload);
}

/// How many bytes a partly read frame still wants before anything can be said of it: the rest of
/// its header, then the rest of its payload, then none. A payload that is announced too large is
/// refused.
pub open spec fn frame_wants(bytes: Seq<u8>) -> Result<nat, RaftFrameRefusal> {
    if bytes.len() < FRAME_HEADER_BYTES {
        Ok((FRAME_HEADER_BYTES - bytes.len()) as nat)
    } else {
        let whole = FRAME_HEADER_BYTES + be_value(bytes.take(FRAME_HEADER_BYTES as int));
        if whole > FRAME_HEADER_BYTES + MAX_RAFT_FRAME_BYTES {
            Err(RaftFrameRefusal::FrameTooLarge)
        } else if bytes.len() < whole {
            Ok((whole - bytes.len()) as nat)
        } else {
            Ok(0)
        }
    }
}

/// A frame that is being read.
pub struct FrameAssembly {
    bytes: Vec<u8>,
}

impl View for FrameAssembly {
    type V = Seq<u8>;

    closed spec fn view(&self) -> Seq<u8> {
        self.bytes@
    }
}

impl FrameAssembly {
    /// Nothing read yet.
    pub fn new() -> (r: Self)
        ensures
            r@ == Seq::<u8>::empty(),
    {
        FrameAssembly { bytes: Vec::new() }
    }

    /// How many bytes have to be read next. None are left to read when the frame is complete.
    pub fn wanted(&self) -> (r: Result<usize, RaftFrameRefusal>)
        ensures
            match (r, frame_wants(self@)) {
                (Ok(count), Ok(expected)) => count == expected,
                (Err(refusal), Err(expected)) => refusal == expected,
                _ => false,
            },
    {
        let length: usize = self.bytes.len();
        if length < FRAME_HEADER_BYTES {
            return Ok(FRAME_HEADER_BYTES - length);
        }
        let header: [u8; 4] = [self.bytes[0], self.bytes[1], self.bytes[2], self.bytes[3]];
        assert(header@ =~= self.bytes@.take(FRAME_HEADER_BYTES as int));
        let whole: usize = FRAME_HEADER_BYTES + read_frame_length(&header)?;
        if length < whole {
            Ok(whole - length)
        } else {
            Ok(0)
        }
    }

    /// Take the bytes that were read.
    pub fn push(&mut self, chunk: &[u8])
        ensures
            final(self)@ == old(self)@ + chunk@,
    {
        self.bytes.extend_from_slice(chunk);
        assert(self.bytes@ =~= old(self).bytes@ + chunk@);
    }

    /// The payload of a complete frame.
    pub fn into_payload(self) -> (r: Vec<u8>)
        requires
            frame_wants(self@) == Ok::<nat, RaftFrameRefusal>(0),
        ensures
            r@ == self@.skip(FRAME_HEADER_BYTES as int),
    {
        let mut bytes = self.bytes;
        let payload = bytes.split_off(FRAME_HEADER_BYTES);
        assert(payload@ =~= self@.skip(FRAME_HEADER_BYTES as int));
        payload
    }
}

/// What reading one frame from a stream comes to.
pub enum FrameReading {
    /// The payload, and how many bytes of the stream it took.
    Payload { payload: Seq<u8>, consumed: nat },
    /// The stream ended before the frame did.
    CutOff,
    /// The frame is refused.
    Refused(RaftFrameRefusal),
}

/// What reading one frame comes to when `taken` bytes of the stream were read and as many are read
/// at a time as the frame wants.
pub open spec fn frame_reading(stream: Seq<u8>, taken: nat) -> FrameReading
    decreases stream.len() - taken,
{
    match frame_wants(stream.take(taken as int)) {
        Err(refusal) => FrameReading::Refused(refusal),
        Ok(count) => if count == 0 {
            FrameReading::Payload {
                payload: stream.take(taken as int).skip(FRAME_HEADER_BYTES as int),
                consumed: taken,
            }
        } else if taken + count > stream.len() {
            FrameReading::CutOff
        } else {
            frame_reading(stream, taken + count)
        },
    }
}

/// A frame at the head of a stream is read whole, whatever follows it, and nothing behind it is
/// touched.
pub proof fn law_frames_are_read_back(payload: Seq<u8>, rest: Seq<u8>)
    requires
        payload.len() <= MAX_RAFT_FRAME_BYTES,
    ensures
        frame_reading(frame_bytes(payload) + rest, 0) == (FrameReading::Payload {
            payload,
            consumed: FRAME_HEADER_BYTES as nat + payload.len(),
        }),
{
    let stream = frame_bytes(payload) + rest;
    law_frames_round_trip(payload);
    assert(stream.take(4) =~= frame_bytes(payload).take(4));
    law_streams_are_read_by_their_header(stream);
    assert(stream.subrange(4, 4 + payload.len() as int) =~= payload);
}

/// What reading a stream comes to is settled by its header: too short a stream is cut off, an
/// announced length over the limit is refused, and otherwise the announced payload is read.
pub proof fn law_streams_are_read_by_their_header(stream: Seq<u8>)
    ensures
        frame_reading(stream, 0) == (if stream.len() < FRAME_HEADER_BYTES {
            FrameReading::CutOff
        } else {
            let length = be_value(stream.take(FRAME_HEADER_BYTES as int));
            if length > MAX_RAFT_FRAME_BYTES {
                FrameReading::Refused(RaftFrameRefusal::FrameTooLarge)
            } else if stream.len() < FRAME_HEADER_BYTES + length {
                FrameReading::CutOff
            } else {
                FrameReading::Payload {
                    payload: stream.subrange(
                        FRAME_HEADER_BYTES as int,
                        FRAME_HEADER_BYTES + length,
                    ),
                    consumed: FRAME_HEADER_BYTES as nat + length,
                }
            }
        }),
{
    reveal_with_fuel(frame_reading, 3);
    assert(stream.take(0).len() == 0);
    if stream.len() >= FRAME_HEADER_BYTES {
        let header = stream.take(FRAME_HEADER_BYTES as int);
        let whole = FRAME_HEADER_BYTES + be_value(header);
        assert(header.take(FRAME_HEADER_BYTES as int) =~= header);
        if whole <= stream.len() {
            assert(stream.take(whole).take(FRAME_HEADER_BYTES as int) =~= header);
            assert(stream.take(whole).skip(FRAME_HEADER_BYTES as int) =~= stream.subrange(
                FRAME_HEADER_BYTES as int,
                whole,
            ));
        }
    }
}

/// Check the size of a snapshot that is to be sent, and give it as it is announced.
pub fn announce_snapshot(length: usize) -> (r: Result<u64, RaftFrameRefusal>)
    ensures
        match r {
            Ok(announced) => announced == length && length <= MAX_RAFT_SNAPSHOT_BYTES,
            Err(refusal) => length > MAX_RAFT_SNAPSHOT_BYTES && refusal
                == RaftFrameRefusal::SnapshotTooLarge,
        },
{
    if length > MAX_RAFT_SNAPSHOT_BYTES {
        return Err(RaftFrameRefusal::SnapshotTooLarge);
    }
    Ok(length as u64)
}

/// Check the size that a snapshot is announced with before any of it is read.
pub fn accept_snapshot(announced: u64) -> (r: Result<usize, RaftFrameRefusal>)
    ensures
        match r {
            Ok(length) => length == announced && announced <= MAX_RAFT_SNAPSHOT_BYTES,
            Err(refusal) => announced > MAX_RAFT_SNAPSHOT_BYTES && refusal == (if announced
                > usize::MAX {
                RaftFrameRefusal::SnapshotLengthUnrepresentable
            } else {
                RaftFrameRefusal::SnapshotTooLarge
            }),
        },
{
    if announced > usize::MAX as u64 {
        return Err(RaftFrameRefusal::SnapshotLengthUnrepresentable);
    }
    let length: usize = announced as usize;
    if length > MAX_RAFT_SNAPSHOT_BYTES {
        return Err(RaftFrameRefusal::SnapshotTooLarge);
    }
    Ok(length)
}

/// The size of the chunk of a body of `length` bytes that begins at `done`.
pub open spec fn chunk_size(length: usize, done: usize) -> usize {
    if length - done > SNAPSHOT_IO_CHUNK_BYTES {
        SNAPSHOT_IO_CHUNK_BYTES
    } else {
        (length - done) as usize
    }
}

/// The size of the next chunk of a snapshot body.
pub fn next_chunk(length: usize, done: usize) -> (r: usize)
    requires
        done <= length,
    ensures
        r == chunk_size(length, done),
        r == 0 <==> done == length,
        done + r <= length,
{
    let left: usize = length - done;
    if left > SNAPSHOT_IO_CHUNK_BYTES {
        SNAPSHOT_IO_CHUNK_BYTES
    } else {
        left
    }
}

/// The deadline of one exchange with a member: that of the engine, at least a millisecond if the
/// engine gives none, and at most the fixed one.
pub open spec fn io_deadline(hard_ttl: nat) -> nat {
    let longest = (RPC_IO_TIMEOUT_SECONDS * NANOS_PER_SECOND) as nat;
    if hard_ttl == 0 {
        NANOS_PER_MILLI as nat
    } else if hard_ttl < longest {
        hard_ttl
    } else {
        longest
    }
}

/// The deadline of one exchange whose hard limit in the engine is `hard_ttl`.
pub fn bounded_rpc_io_timeout(hard_ttl: TimeSpan) -> (r: TimeSpan)
    ensures
        r@ == io_deadline(hard_ttl@),
{
    if hard_ttl.is_zero() {
        return TimeSpan::from_millis(1);
    }
    let longest = TimeSpan::from_secs(RPC_IO_TIMEOUT_SECONDS);
    if hard_ttl.as_nanos() < longest.as_nanos() {
        hard_ttl
    } else {
        longest
    }
}

/// The shorter of two spans.
pub fn shorter(left: TimeSpan, right: TimeSpan) -> (r: TimeSpan)
    ensures
        r@ == (if left@ <= right@ {
            left@
        } else {
            right@
        }),
{
    if left.as_nanos() <= right.as_nanos() {
        left
    } else {
        right
    }
}

/// An exchange never waits forever, never longer than the engine allows or the fixed limit.
pub proof fn law_exchanges_are_bounded(hard_ttl: nat)
    ensures
        0 < io_deadline(hard_ttl) <= RPC_IO_TIMEOUT_SECONDS * NANOS_PER_SECOND,
        hard_ttl > 0 ==> io_deadline(hard_ttl) <= hard_ttl,
{
}

} // verus!
