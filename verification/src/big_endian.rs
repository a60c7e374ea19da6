//! Big-endian byte forms of unsigned numbers.
use vstd::prelude::*;

verus! {

/// The last `width` bytes of `value`, most significant first.
pub open spec fn be_bytes(value: nat, width: nat) -> Seq<u8>
    decreases width,
{
    if width == 0 {
        seq![]
    } else {
        be_bytes(value / 256, (width - 1) as nat).push((value % 256) as u8)
    }
}

/// The number whose bytes, most significant first, are `bytes`.
pub open spec fn be_value(bytes: Seq<u8>) -> nat
    decreases bytes.len(),
{
    if bytes.len() == 0 {
        0
    } else {
        be_value(bytes.drop_last()) * 256 + bytes.last() as nat
    }
}

/// How many numbers `width` bytes can tell apart.
pub open spec fn byte_capacity(width: nat) -> nat
    decreases width,
{
    if width == 0 {
        1
    } else {
        byte_capacity((width - 1) as nat) * 256
    }
}

/// The byte form has the asked width.
pub proof fn lemma_be_bytes_len(value: nat, width: nat)
    ensures
        be_bytes(value, width).len() == width,
    decreases width,
{
    if width > 0 {
        lemma_be_bytes_len(value / 256, (width - 1) as nat);
    }
}

/// A number that fits comes back from its byte form.
pub proof fn law_number_round_trips(value: nat, width: nat)
    requires
        value < byte_capacity(width),
    ensures
        be_value(be_bytes(value, width)) == value,
    decreases width,
{
    if width > 0 {
        law_number_round_trips(value / 256, (width - 1) as nat);
        let head = be_bytes(value / 256, (width - 1) as nat);
        assert(be_bytes(value, width).drop_last() =~= head);
    }
}

/// Bytes come back from the number that they form.
pub proof fn law_bytes_round_trip(bytes: Seq<u8>)
    ensures
        be_value(bytes) < byte_capacity(bytes.len()),
        be_bytes(be_value(bytes), bytes.len()) == bytes,
    decreases bytes.len(),
{
    if bytes.len() > 0 {
        law_bytes_round_trip(bytes.drop_last());
        let high = be_value(bytes.drop_last());
        assert((high * 256 + bytes.last() as nat) / 256 == high);
        assert((high * 256 + bytes.last() as nat) % 256 == bytes.last() as nat);
        assert(bytes =~= bytes.drop_last().push(bytes.last()));
    } else {
        assert(be_bytes(0, 0) =~= bytes);
    }
}

/// Widths of machine numbers.
pub proof fn lemma_byte_capacity_of_machine_numbers()
    ensures
        byte_capacity(4) == 0x1_0000_0000,
        byte_capacity(8) == 0x1_0000_0000_0000_0000,
{
    reveal_with_fuel(byte_capacity, 9);
}

/// Append the last `width` bytes of `value`, most significant first.
pub fn push_be(out: &mut Vec<u8>, value: u64, width: usize)
    ensures
        final(out)@ == old(out)@ + be_bytes(value as nat, width as nat),
    decreases width,
{
    if width > 0 {
        push_be(out, value / 256, width - 1);
        out.push((value % 256) as u8);
        assert(out@ =~= old(out)@ + be_bytes(value as nat, width as nat));
    } else {
        assert(out@ =~= old(out)@ + be_bytes(value as nat, width as nat));
    }
}

/// Read `width` bytes at `start` as a number, most significant first.
pub fn read_be(bytes: &[u8], start: usize, width: usize) -> (r: u64)
    requires
        width <= 8,
        start + width <= bytes@.len(),
    ensures
        r == be_value(bytes@.subrange(start as int, start + width)),
{
    let length: usize = bytes.len();
    let mut value: u64 = 0;
    let mut index: usize = 0;
    assert(bytes@.subrange(start as int, start as int) =~= seq![]);
    while index < width
        invariant
            index <= width <= 8,
            start + width <= bytes@.len() == length,
            value == be_value(bytes@.subrange(start as int, start + index)),
        decreases width - index,
    {
        let ghost part = bytes@.subrange(start as int, start + index);
        let ghost longer = bytes@.subrange(start as int, start + index + 1);
        proof {
            assert(longer.drop_last() =~= part);
            law_bytes_round_trip(longer);
            lemma_capacity_is_monotonic(longer.len(), 8);
            lemma_byte_capacity_of_machine_numbers();
        }
        value = value * 256 + bytes[start + index] as u64;
        index = index + 1;
    }
    value
}

/// More bytes tell more numbers apart.
pub proof fn lemma_capacity_is_monotonic(narrow: nat, wide: nat)
    requires
        narrow <= wide,
    ensures
        byte_capacity(narrow) <= byte_capacity(wide),
    decreases wide,
{
    if narrow < wide {
        lemma_capacity_is_monotonic(narrow, (wide - 1) as nat);
    }
}

} // verus!
