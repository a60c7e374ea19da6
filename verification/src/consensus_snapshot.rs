//! Framing of a consensus snapshot: the Broker snapshot and the command sessions beside it.
use crate::big_endian::{
    be_bytes, be_value, law_bytes_round_trip, law_number_round_trips, lemma_be_bytes_len,
    lemma_byte_capacity_of_machine_numbers, push_be, read_be,
};
use crate::text::{decimal, push_decimal};
use vstd::prelude::*;

verus! {

/// Version of the snapshot frame and of the session list in it.
pub const CONSENSUS_SNAPSHOT_VERSION: u32 = 1;

/// Bytes before the two parts: magic, version and the two lengths.
pub const CONSENSUS_SNAPSHOT_HEADER_BYTES: usize = 28;

/// The bytes that a framed snapshot starts with: `ABCSNP01`.
pub open spec fn snapshot_magic() -> Seq<u8> {
    seq![65u8, 66u8, 67u8, 83u8, 78u8, 80u8, 48u8, 49u8]
}

/// The frame around a Broker snapshot and a session list.
pub open spec fn snapshot_frame(broker: Seq<u8>, sidecar: Seq<u8>) -> Seq<u8> {
    snapshot_magic() + be_bytes(CONSENSUS_SNAPSHOT_VERSION as nat, 4) + be_bytes(broker.len(), 8)
        + be_bytes(sidecar.len(), 8) + broker + sidecar
}

/// The parts of a snapshot.
pub enum SnapshotPartsView {
    /// A snapshot without the frame: all of it is the Broker snapshot and there are no sessions.
    Legacy,
    /// A framed snapshot: the Broker snapshot and the session list.
    Framed { broker: Seq<u8>, sidecar: Seq<u8> },
}

/// The parts of snapshot bytes, or why they are refused.
pub open spec fn snapshot_parts(data: Seq<u8>) -> Result<SnapshotPartsView, Seq<char>> {
    if !(data.len() >= 8 && data.take(8) == snapshot_magic()) {
        Ok(SnapshotPartsView::Legacy)
    } else if data.len() < CONSENSUS_SNAPSHOT_HEADER_BYTES {
        Err("consensus snapshot header is truncated"@)
    } else {
        let version = be_value(data.subrange(8, 12));
        let broker_len = be_value(data.subrange(12, 20));
        let sidecar_len = be_value(data.subrange(20, 28));
        let broker_end = CONSENSUS_SNAPSHOT_HEADER_BYTES + broker_len;
        if version != CONSENSUS_SNAPSHOT_VERSION {
            Err("unsupported consensus snapshot version "@ + decimal(version))
        } else if broker_len > usize::MAX {
            Err("Broker snapshot length exceeds platform usize"@)
        } else if sidecar_len > usize::MAX {
            Err("command session length exceeds platform usize"@)
        } else if broker_end > usize::MAX {
            Err("consensus snapshot Broker length overflow"@)
        } else if broker_end + sidecar_len > usize::MAX {
            Err("consensus snapshot sidecar length overflow"@)
        } else if broker_end + sidecar_len != data.len() {
            Err("consensus snapshot length fields do not match payload length"@)
        } else {
            Ok(
                SnapshotPartsView::Framed {
                    broker: data.subrange(28, broker_end as int),
                    sidecar: data.subrange(broker_end as int, data.len() as int),
                },
            )
        }
    }
}

/// The parts of snapshot bytes.
#[derive(Debug, PartialEq, Eq)]
pub enum SnapshotParts {
    /// A snapshot without the frame.
    Legacy,
    /// A framed snapshot: the Broker snapshot and the session list.
    Framed { broker: Vec<u8>, sidecar: Vec<u8> },
}

impl View for SnapshotParts {
    type V = SnapshotPartsView;

    open spec fn view(&self) -> SnapshotPartsView {
        match self {
            SnapshotParts::Legacy => SnapshotPartsView::Legacy,
            SnapshotParts::Framed { broker, sidecar } => SnapshotPartsView::Framed {
                broker: broker@,
                sidecar: sidecar@,
            },
        }
    }
}

/// Snapshot bytes that are refused.
#[derive(Debug, Clone, PartialEq, Eq)]
pub struct SnapshotDataError {
    message: String,
}

impl View for SnapshotDataError {
    type V = Seq<char>;

    closed spec fn view(&self) -> Seq<char> {
        self.message@
    }
}

impl SnapshotDataError {
    pub fn new(message: &str) -> (r: Self)
        ensures
            r@ == message@,
    {
        SnapshotDataError { message: message.to_owned() }
    }

    pub fn message(&self) -> (r: &str)
        ensures
            r@ == self@,
    {
        self.message.as_str()
    }
}

/// Append all of `bytes`.
fn push_bytes(out: &mut Vec<u8>, bytes: &[u8])
    ensures
        final(out)@ == old(out)@ + bytes@,
{
    out.extend_from_slice(bytes);
    assert(out@ =~= old(out)@ + bytes@);
}

/// Frame a Broker snapshot and a session list.
pub fn encode_snapshot_frame(broker: &[u8], sidecar: &[u8]) -> (r: Vec<u8>)
    ensures
        r@ == snapshot_frame(broker@, sidecar@),
{
    let mut output: Vec<u8> = vec![65u8, 66u8, 67u8, 83u8, 78u8, 80u8, 48u8, 49u8];
    assert(output@ =~= snapshot_magic());
    push_be(&mut output, CONSENSUS_SNAPSHOT_VERSION as u64, 4);
    push_be(&mut output, broker.len() as u64, 8);
    push_be(&mut output, sidecar.len() as u64, 8);
    push_bytes(&mut output, broker);
    push_bytes(&mut output, sidecar);
    output
}

/// Whether snapshot bytes start with the magic of the frame.
fn has_magic(data: &[u8]) -> (r: bool)
    ensures
        r == (data@.len() >= 8 && data@.take(8) == snapshot_magic()),
{
    if data.len() < 8 {
        return false;
    }
    let same = data[0] == 65 && data[1] == 66 && data[2] == 67 && data[3] == 83 && data[4] == 78
        && data[5] == 80 && data[6] == 48 && data[7] == 49;
    proof {
        let head = data@.take(8);
        if same {
            assert(head =~= snapshot_magic());
        } else {
            assert(head[0] == data@[0] && head[1] == data@[1] && head[2] == data@[2] && head[3]
                == data@[3] && head[4] == data@[4] && head[5] == data@[5] && head[6] == data@[6]
                && head[7] == data@[7]);
        }
    }
    same
}

/// Split snapshot bytes into their parts.
pub fn decode_snapshot_frame(data: &[u8]) -> (r: Result<SnapshotParts, SnapshotDataError>)
    ensures
        match r {
            Ok(parts) => snapshot_parts(data@) == Ok::<SnapshotPartsView, Seq<char>>(parts@),
            Err(error) => snapshot_parts(data@) == Err::<SnapshotPartsView, Seq<char>>(error@),
        },
{
    if !has_magic(data) {
        return Ok(SnapshotParts::Legacy);
    }
    if data.len() < CONSENSUS_SNAPSHOT_HEADER_BYTES {
        return Err(SnapshotDataError::new("consensus snapshot header is truncated"));
    }
    let version: u64 = read_be(data, 8, 4);
    if version != CONSENSUS_SNAPSHOT_VERSION as u64 {
        let mut message = "unsupported consensus snapshot version ".to_owned();
        push_decimal(&mut message, version);
        return Err(SnapshotDataError { message });
    }
    let broker_length: u64 = read_be(data, 12, 8);
    let sidecar_length: u64 = read_be(data, 20, 8);
    if broker_length > usize::MAX as u64 {
        return Err(SnapshotDataError::new("Broker snapshot length exceeds platform usize"));
    }
    if sidecar_length > usize::MAX as u64 {
        return Err(SnapshotDataError::new("command session length exceeds platform usize"));
    }
    let broker_end: usize = match CONSENSUS_SNAPSHOT_HEADER_BYTES.checked_add(
        broker_length as usize,
    ) {
        Some(end) => end,
        None => return Err(SnapshotDataError::new("consensus snapshot Broker length overflow")),
    };
    let expected_end: usize = match broker_end.checked_add(sidecar_length as usize) {
        Some(end) => end,
        None => return Err(SnapshotDataError::new("consensus snapshot sidecar length overflow")),
    };
    if expected_end != data.len() {
        return Err(
            SnapshotDataError::new("consensus snapshot length fields do not match payload length"),
        );
    }
    let mut broker: Vec<u8> = Vec::new();
    push_bytes(&mut broker, vstd::slice::slice_subrange(data, 28, broker_end));
    let mut sidecar: Vec<u8> = Vec::new();
    push_bytes(&mut sidecar, vstd::slice::slice_subrange(data, broker_end, data.len()));
    assert(broker@ =~= data@.subrange(28, broker_end as int));
    assert(sidecar@ =~= data@.subrange(broker_end as int, data@.len() as int));
    Ok(SnapshotParts::Framed { broker, sidecar })
}

/// A framed snapshot splits into the parts it was made of, as far as its length fits the platform.
pub proof fn law_snapshot_frame_round_trips(broker: Seq<u8>, sidecar: Seq<u8>)
    requires
        CONSENSUS_SNAPSHOT_HEADER_BYTES + broker.len() + sidecar.len() <= usize::MAX,
    ensures
        snapshot_frame(broker, sidecar).len() == CONSENSUS_SNAPSHOT_HEADER_BYTES + broker.len()
            + sidecar.len(),
        snapshot_parts(snapshot_frame(broker, sidecar)) == Ok::<SnapshotPartsView, Seq<char>>(
            SnapshotPartsView::Framed { broker, sidecar },
        ),
{
    let data = snapshot_frame(broker, sidecar);
    let version = be_bytes(CONSENSUS_SNAPSHOT_VERSION as nat, 4);
    let broker_length = be_bytes(broker.len(), 8);
    let sidecar_length = be_bytes(sidecar.len(), 8);
    lemma_be_bytes_len(CONSENSUS_SNAPSHOT_VERSION as nat, 4);
    lemma_be_bytes_len(broker.len(), 8);
    lemma_be_bytes_len(sidecar.len(), 8);
    lemma_byte_capacity_of_machine_numbers();
    law_number_round_trips(CONSENSUS_SNAPSHOT_VERSION as nat, 4);
    law_number_round_trips(broker.len(), 8);
    law_number_round_trips(sidecar.len(), 8);
    let end = 28 + broker.len() as int;
    assert(data.take(8) =~= snapshot_magic());
    assert(data.subrange(8, 12) =~= version);
    assert(data.subrange(12, 20) =~= broker_length);
    assert(data.subrange(20, 28) =~= sidecar_length);
    assert(data.subrange(28, end) =~= broker);
    assert(data.subrange(end, data.len() as int) =~= sidecar);
}

/// A framed snapshot that was cut off anywhere after its magic is refused.
pub proof fn law_truncated_snapshots_are_refused(broker: Seq<u8>, sidecar: Seq<u8>, length: int)
    requires
        CONSENSUS_SNAPSHOT_HEADER_BYTES + broker.len() + sidecar.len() <= usize::MAX,
        8 <= length < snapshot_frame(broker, sidecar).len(),
    ensures
        snapshot_parts(snapshot_frame(broker, sidecar).take(length)) is Err,
{
    let data = snapshot_frame(broker, sidecar);
    let cut = data.take(length);
    law_snapshot_frame_round_trips(broker, sidecar);
    assert(cut.take(8) =~= data.take(8));
    if length >= CONSENSUS_SNAPSHOT_HEADER_BYTES {
        assert(cut.subrange(8, 12) =~= data.subrange(8, 12));
        assert(cut.subrange(12, 20) =~= data.subrange(12, 20));
        assert(cut.subrange(20, 28) =~= data.subrange(20, 28));
    }
}

/// Bytes that split into framed parts are exactly the frame around those parts.
pub proof fn law_framed_parts_determine_the_snapshot(
    data: Seq<u8>,
    broker: Seq<u8>,
    sidecar: Seq<u8>,
)
    requires
        snapshot_parts(data) == Ok::<SnapshotPartsView, Seq<char>>(
            SnapshotPartsView::Framed { broker, sidecar },
        ),
    ensures
        data == snapshot_frame(broker, sidecar),
{
    law_bytes_round_trip(data.subrange(8, 12));
    law_bytes_round_trip(data.subrange(12, 20));
    law_bytes_round_trip(data.subrange(20, 28));
    let broker_end = 28 + be_value(data.subrange(12, 20));
    assert(broker.len() == be_value(data.subrange(12, 20)));
    assert(sidecar.len() == be_value(data.subrange(20, 28)));
    let head = data.take(8) + data.subrange(8, 12) + data.subrange(12, 20) + data.subrange(20, 28);
    assert(data =~= head + data.subrange(28, broker_end as int) + data.subrange(
        broker_end as int,
        data.len() as int,
    ));
}

} // verus!
