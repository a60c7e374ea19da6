//! Rules of the durable Raft log.
use crate::text::{decimal, push_decimal};
use vstd::prelude::*;

verus! {

/// One end of a range of log indexes.
#[derive(Debug, Clone, Copy, PartialEq, Eq, Structural)]
pub enum LogBound {
    Unbounded,
    Included(u64),
    Excluded(u64),
}

/// Why a stored log is refused.
#[derive(Debug, PartialEq, Eq)]
pub enum LogRefusal {
    /// The first index after an excluded start does not exist.
    RangeStartOverflow,
    /// A batch skips an index.
    IndexHole,
    /// An entry lies under the index of another.
    IndexMismatch { key: u64, entry: u64 },
    /// The last entry lies under the index of another.
    LastIndexMismatch,
}

impl LogRefusal {
    /// The text of a refusal.
    pub open spec fn text(self) -> Seq<char> {
        match self {
            LogRefusal::RangeStartOverflow => "excluded Raft range start overflows u64"@,
            LogRefusal::IndexHole => "Raft append batch contains a log index hole"@,
            LogRefusal::IndexMismatch { key, entry } => "Raft log key/index mismatch: key="@
                + decimal(key as nat) + ", entry="@ + decimal(entry as nat),
            LogRefusal::LastIndexMismatch => "Raft log key/index mismatch in last entry"@,
        }
    }

    /// Render the refusal for people.
    pub fn message(&self) -> (r: String)
        ensures
            r@ == self.text(),
    {
        match self {
            LogRefusal::RangeStartOverflow => "excluded Raft range start overflows u64".to_owned(),
            LogRefusal::IndexHole => "Raft append batch contains a log index hole".to_owned(),
            LogRefusal::IndexMismatch { key, entry } => {
                let mut text = "Raft log key/index mismatch: key=".to_owned();
                push_decimal(&mut text, *key);
                text.append(", entry=");
                push_decimal(&mut text, *entry);
                text
            },
            LogRefusal::LastIndexMismatch => "Raft log key/index mismatch in last entry".to_owned(),
        }
    }
}

/// Whether an index lies between two ends.
pub open spec fn in_range(index: u64, start: LogBound, end: LogBound) -> bool {
    &&& match start {
        LogBound::Unbounded => true,
        LogBound::Included(value) => index >= value,
        LogBound::Excluded(value) => index > value,
    }
    &&& match end {
        LogBound::Unbounded => true,
        LogBound::Included(value) => index <= value,
        LogBound::Excluded(value) => index < value,
    }
}

/// The indexes from the first number up to, but not with, the second, or to the end of the log.
pub open spec fn in_span(index: u64, span: (u64, Option<u64>)) -> bool {
    index >= span.0 && (span.1 matches Some(end) ==> index < end)
}

/// Turn two ends into a span. `None` stands for a span without an index.
pub fn normalize_range(start: LogBound, end: LogBound) -> (r: Result<
    Option<(u64, Option<u64>)>,
    LogRefusal,
>)
    ensures
        match r {
            Err(refusal) => start == LogBound::Excluded(u64::MAX) && refusal
                == LogRefusal::RangeStartOverflow,
            Ok(None) => start != LogBound::Excluded(u64::MAX) && forall|index: u64|
                !#[trigger] in_range(index, start, end),
            Ok(Some(span)) => start != LogBound::Excluded(u64::MAX) && (span.1 matches Some(last)
                ==> span.0 < last) && forall|index: u64| #[trigger]
                in_range(index, start, end) == in_span(index, span),
        },
{
    let first: u64 = match start {
        LogBound::Unbounded => 0,
        LogBound::Included(value) => value,
        LogBound::Excluded(value) => match value.checked_add(1) {
            Some(next) => next,
            None => return Err(LogRefusal::RangeStartOverflow),
        },
    };
    let last: Option<u64> = match end {
        LogBound::Unbounded => None,
        LogBound::Excluded(value) => Some(value),
        LogBound::Included(value) => value.checked_add(1),
    };
    if let Some(last) = last {
        if first >= last {
            return Ok(None);
        }
    }
    Ok(Some((first, last)))
}

/// Whether every index follows the one before it.
pub open spec fn is_contiguous(indexes: Seq<u64>) -> bool {
    forall|i: int| 0 <= i < indexes.len() - 1 ==> follows(#[trigger] indexes[i], indexes[i + 1])
}

/// Whether `second` is accepted directly after `first`. The largest index is followed by itself.
pub open spec fn follows(first: u64, second: u64) -> bool {
    second == (if first == u64::MAX {
        u64::MAX
    } else {
        (first + 1) as u64
    })
}

/// Check that a batch of entries to append has no hole.
pub fn check_append_batch(indexes: &Vec<u64>) -> (r: Result<(), LogRefusal>)
    ensures
        match r {
            Ok(_) => is_contiguous(indexes@),
            Err(refusal) => !is_contiguous(indexes@) && refusal == LogRefusal::IndexHole,
        },
{
    let length: usize = indexes.len();
    if length < 2 {
        return Ok(());
    }
    let mut index: usize = 0;
    while index + 1 < length
        invariant
            length == indexes@.len(),
            2 <= length,
            index < length,
            forall|i: int|
                0 <= i < index ==> follows(#[trigger] indexes@[i], indexes@[i + 1]),
        decreases length - index,
    {
        let first: u64 = indexes[index];
        let second: u64 = indexes[index + 1];
        if second != first.saturating_add(1) {
            assert(!follows(indexes@[index as int], indexes@[index + 1]));
            return Err(LogRefusal::IndexHole);
        }
        index = index + 1;
    }
    Ok(())
}

/// Check that an entry lies under its own index.
pub fn check_stored_index(key: u64, entry: u64) -> (r: Result<(), LogRefusal>)
    ensures
        match r {
            Ok(_) => key == entry,
            Err(refusal) => key != entry && refusal == (LogRefusal::IndexMismatch { key, entry }),
        },
{
    if key == entry {
        Ok(())
    } else {
        Err(LogRefusal::IndexMismatch { key, entry })
    }
}

/// Where the log ends: at its last entry, or where it was purged if no entry is left.
pub open spec fn log_end<P>(last_present: Option<(u64, u64, P)>, last_purged: Option<P>) -> Result<
    Option<P>,
    LogRefusal,
> {
    match last_present {
        None => Ok(last_purged),
        Some((key, entry, position)) => if key == entry {
            Ok(Some(position))
        } else {
            Err(LogRefusal::LastIndexMismatch)
        },
    }
}

/// Find where the log ends. A present entry comes with its key, its own index and its position.
pub fn last_log_position<P>(
    last_present: Option<(u64, u64, P)>,
    last_purged: Option<P>,
) -> (r: Result<Option<P>, LogRefusal>)
    ensures
        r == log_end(last_present, last_purged),
{
    match last_present {
        None => Ok(last_purged),
        Some((key, entry, position)) => if key == entry {
            Ok(Some(position))
        } else {
            Err(LogRefusal::LastIndexMismatch)
        },
    }
}

/// Whether an entry stays when the log is cut off from `index` on.
pub open spec fn stays_when_truncated(stored: u64, index: u64) -> bool {
    stored < index
}

/// Whether an entry stays when the log is purged through `index`.
pub open spec fn stays_when_purged(stored: u64, index: u64) -> bool {
    stored > index
}

/// Decide whether an entry stays when the log is cut off from `index` on.
pub fn keeps_on_truncate(stored: u64, index: u64) -> (r: bool)
    ensures
        r == stays_when_truncated(stored, index),
{
    stored < index
}

/// Decide whether an entry stays when the log is purged through `index`.
pub fn keeps_on_purge(stored: u64, index: u64) -> (r: bool)
    ensures
        r == stays_when_purged(stored, index),
{
    stored > index
}

/// Cutting and purging make no holes: an entry between two entries that stay stays too.
pub proof fn law_cuts_leave_no_holes(first: u64, middle: u64, last: u64, index: u64)
    requires
        first <= middle <= last,
    ensures
        stays_when_truncated(first, index) && stays_when_truncated(last, index)
            ==> stays_when_truncated(middle, index),
        stays_when_purged(first, index) && stays_when_purged(last, index) ==> stays_when_purged(
            middle,
            index,
        ),
{
}

/// Cutting from an index and purging through the index before it part the log: each entry stays in
/// exactly one of the two.
pub proof fn law_cuts_part_the_log(stored: u64, index: u64)
    requires
        index > 0,
    ensures
        stays_when_truncated(stored, index) != stays_when_purged(stored, (index - 1) as u64),
{
}

/// In a batch without holes each index is its position away from the first, as long as the indexes
/// do not reach the largest one.
pub proof fn law_batches_count_up(indexes: Seq<u64>, position: int)
    requires
        is_contiguous(indexes),
        0 <= position < indexes.len(),
        indexes[0] + indexes.len() <= u64::MAX,
    ensures
        indexes[position] == indexes[0] + position,
    decreases position,
{
    if position > 0 {
        law_batches_count_up(indexes, position - 1);
        assert(follows(indexes[position - 1], indexes[position - 1 + 1]));
    }
}

} // verus!
