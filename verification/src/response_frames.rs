//! Bounded assembly of answer frames from the chunks of a byte stream.
use vstd::prelude::*;

verus! {

/// The newline that ends a frame.
pub const FRAME_END: u8 = 10;

/// What one more chunk did to a partly read frame.
#[derive(Debug, Clone, Copy, PartialEq, Eq, Structural)]
pub enum FrameProgress {
    /// The stream ended before the frame did.
    Closed,
    /// The chunk was consumed whole and the frame goes on.
    Partial,
    /// The frame is complete after this many bytes of the chunk.
    Complete { consumed: usize },
    /// The frame would have this many bytes, which is more than allowed.
    TooLarge { actual: usize },
}

/// The number of bytes up to and including the first newline, or all of them if there is none.
pub open spec fn line_length(bytes: Seq<u8>) -> nat
    decreases bytes.len(),
{
    if bytes.len() == 0 {
        0
    } else if bytes[0] == FRAME_END {
        1
    } else {
        1 + line_length(bytes.skip(1))
    }
}

/// Whether some byte is a newline.
pub open spec fn has_line_end(bytes: Seq<u8>) -> bool {
    bytes.contains(FRAME_END)
}

/// A length that stops at the largest machine integer.
pub open spec fn saturated(length: nat) -> usize {
    if length > usize::MAX {
        usize::MAX
    } else {
        length as usize
    }
}

/// What chunk `available` does to the partly read `frame`.
pub open spec fn frame_progress(
    frame: Seq<u8>,
    available: Seq<u8>,
    max_bytes: usize,
) -> FrameProgress {
    if available.len() == 0 {
        FrameProgress::Closed
    } else if frame.len() + line_length(available) > max_bytes {
        FrameProgress::TooLarge { actual: saturated(frame.len() + line_length(available)) }
    } else if has_line_end(available) {
        FrameProgress::Complete { consumed: line_length(available) as usize }
    } else {
        FrameProgress::Partial
    }
}

/// The first line of a chunk, or the whole chunk if it ends no line.
pub open spec fn line_part(available: Seq<u8>) -> Seq<u8> {
    available.take(line_length(available) as int)
}

/// A line is no longer than the bytes it is taken from. It ends in their first newline.
pub proof fn lemma_line_length(bytes: Seq<u8>)
    ensures
        line_length(bytes) <= bytes.len(),
        bytes.len() > 0 ==> line_length(bytes) > 0,
        !has_line_end(bytes) ==> line_length(bytes) == bytes.len(),
        has_line_end(bytes) ==> bytes[line_length(bytes) - 1] == FRAME_END,
        forall|i: int| 0 <= i < line_length(bytes) - 1 ==> bytes[i] != FRAME_END,
    decreases bytes.len(),
{
    if bytes.len() > 0 && bytes[0] != FRAME_END {
        let rest = bytes.skip(1);
        lemma_line_length(rest);
        if has_line_end(bytes) {
            let i = choose|i: int| 0 <= i < bytes.len() && bytes[i] == FRAME_END;
            assert(rest[i - 1] == FRAME_END);
        }
        if has_line_end(rest) {
            let i = choose|i: int| 0 <= i < rest.len() && rest[i] == FRAME_END;
            assert(bytes[i + 1] == FRAME_END);
        }
        assert forall|i: int| 0 <= i < line_length(bytes) - 1 implies bytes[i] != FRAME_END by {
            if i > 0 {
                assert(rest[i - 1] == bytes[i]);
            }
        }
    } else if bytes.len() > 0 {
        assert(bytes.contains(bytes[0]));
    }
}

/// A newline at `at` with none before it ends the first line.
pub proof fn lemma_line_ends_at(bytes: Seq<u8>, at: int)
    requires
        0 <= at < bytes.len(),
        bytes[at] == FRAME_END,
        forall|i: int| 0 <= i < at ==> bytes[i] != FRAME_END,
    ensures
        has_line_end(bytes),
        line_length(bytes) == at + 1,
{
    lemma_line_length(bytes);
    if line_length(bytes) - 1 < at {
        assert(bytes[line_length(bytes) - 1] == FRAME_END);
    }
    if line_length(bytes) - 1 > at {
        assert(bytes[at] != FRAME_END);
    }
}

/// Take the next chunk of a byte stream into a partly read frame.
pub fn advance_frame(frame: &mut Vec<u8>, available: &[u8], max_bytes: usize) -> (r: FrameProgress)
    ensures
        r == frame_progress(old(frame)@, available@, max_bytes),
        match r {
            FrameProgress::Closed | FrameProgress::TooLarge { .. } => final(frame)@ == old(frame)@,
            FrameProgress::Partial => final(frame)@ == old(frame)@ + available@,
            FrameProgress::Complete { consumed } => consumed <= available@.len() && final(frame)@
                == old(frame)@ + available@.take(consumed as int),
        },
{
    let length: usize = available.len();
    if length == 0 {
        return FrameProgress::Closed;
    }
    let mut consumed: usize = 0;
    let mut complete: bool = false;
    while consumed < length && !complete
        invariant
            length == available@.len(),
            consumed <= length,
            complete ==> consumed > 0 && available@[consumed - 1] == FRAME_END,
            forall|i: int|
                0 <= i < consumed - (if complete { 1int } else { 0int }) ==> available@[i]
                    != FRAME_END,
        decreases length - consumed,
    {
        if available[consumed] == FRAME_END {
            complete = true;
        }
        consumed = consumed + 1;
    }
    proof {
        lemma_line_length(available@);
        if complete {
            lemma_line_ends_at(available@, consumed - 1);
        } else {
            assert(!has_line_end(available@));
        }
        assert(consumed == line_length(available@));
        assert(complete == has_line_end(available@));
    }
    let held: usize = frame.len();
    if held > max_bytes || consumed > max_bytes - held {
        return FrameProgress::TooLarge { actual: held.saturating_add(consumed) };
    }
    let mut index: usize = 0;
    let ghost start = frame@;
    while index < consumed
        invariant
            index <= consumed <= available@.len(),
            frame@ == start + available@.take(index as int),
        decreases consumed - index,
    {
        frame.push(available[index]);
        index = index + 1;
        assert(frame@ =~= start + available@.take(index as int));
    }
    if complete {
        FrameProgress::Complete { consumed }
    } else {
        assert(available@.take(consumed as int) =~= available@);
        FrameProgress::Partial
    }
}

/// All bytes of a list of chunks.
pub open spec fn joined(chunks: Seq<Seq<u8>>) -> Seq<u8>
    decreases chunks.len(),
{
    if chunks.len() == 0 {
        Seq::empty()
    } else {
        joined(chunks.drop_last()) + chunks.last()
    }
}

/// What reading a list of non-empty chunks leads to: the frame read so far, and the last progress.
pub open spec fn read_chunks(chunks: Seq<Seq<u8>>, max_bytes: usize) -> (Seq<u8>, FrameProgress)
    decreases chunks.len(),
{
    if chunks.len() == 0 {
        (Seq::empty(), FrameProgress::Partial)
    } else {
        let (frame, before) = read_chunks(chunks.drop_last(), max_bytes);
        if before != FrameProgress::Partial {
            (frame, before)
        } else {
            let next = frame_progress(frame, chunks.last(), max_bytes);
            (
                if next is Partial || next is Complete {
                    frame + line_part(chunks.last())
                } else {
                    frame
                },
                next,
            )
        }
    }
}

/// However a stream is cut into chunks, a frame that was read is the first line of the stream,
/// within the bound. A stream whose first line is within the bound is never refused, and a first
/// line over the bound is never accepted.
pub proof fn law_frames_do_not_depend_on_chunks(chunks: Seq<Seq<u8>>, max_bytes: usize)
    requires
        forall|i: int| 0 <= i < chunks.len() ==> (#[trigger] chunks[i]).len() > 0,
    ensures
        ({
            let bytes = joined(chunks);
            let (frame, progress) = read_chunks(chunks, max_bytes);
            &&& (progress is Complete <==> has_line_end(bytes) && line_length(bytes) <= max_bytes)
            &&& (progress is Complete ==> frame == line_part(bytes))
            &&& (progress is TooLarge <==> line_length(bytes) > max_bytes)
            &&& (progress is Partial <==> !has_line_end(bytes) && line_length(bytes) <= max_bytes)
            &&& (progress is Partial ==> frame == bytes)
        }),
    decreases chunks.len(),
{
    if chunks.len() > 0 {
        let before = chunks.drop_last();
        law_frames_do_not_depend_on_chunks(before, max_bytes);
        let held = joined(before);
        let last = chunks.last();
        let bytes = held + last;
        lemma_line_length(held);
        lemma_line_length(last);
        lemma_line_length(bytes);
        assert(last.len() > 0);
        if has_line_end(held) {
            let at = line_length(held) - 1;
            assert(bytes[at] == FRAME_END);
            assert forall|i: int| 0 <= i < at implies bytes[i] != FRAME_END by {
                assert(bytes[i] == held[i]);
            }
            lemma_line_ends_at(bytes, at);
            assert(line_part(bytes) =~= line_part(held));
        } else if has_line_end(last) {
            let at = held.len() + line_length(last) - 1;
            assert(bytes[at as int] == last[line_length(last) - 1]);
            assert forall|i: int| 0 <= i < at implies bytes[i] != FRAME_END by {
                if i < held.len() {
                    assert(bytes[i] == held[i]);
                    assert(held.contains(held[i]));
                } else {
                    assert(bytes[i] == last[i - held.len()]);
                }
            }
            lemma_line_ends_at(bytes, at as int);
            assert(line_part(bytes) =~= held + line_part(last));
        } else {
            if has_line_end(bytes) {
                let i = choose|i: int| 0 <= i < bytes.len() && bytes[i] == FRAME_END;
                if i < held.len() {
                    assert(held.contains(held[i]));
                } else {
                    assert(last.contains(last[i - held.len()]));
                }
            }
            assert(line_part(last) =~= last);
        }
    }
}

} // verus!
