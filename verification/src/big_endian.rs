//! Big-endian (network order) integer fields: what their bytes are, and the
//! executable writers that append them to a buffer.

use vstd::prelude::*;

verus! {

/// The `width` low-order bytes of `value`, most significant byte first.
pub open spec fn be_bytes(value: nat, width: nat) -> Seq<u8>
    decreases width,
{
    if width == 0 {
        Seq::empty()
    } else {
        be_bytes(value / 256, (width - 1) as nat).push((value % 256) as u8)
    }
}

/// The number that a big-endian byte string denotes.
pub open spec fn be_value(bytes: Seq<u8>) -> nat
    decreases bytes.len(),
{
    if bytes.len() == 0 {
        0
    } else {
        be_value(bytes.drop_last()) * 256 + bytes.last() as nat
    }
}

/// 256 to the power `width`: the number of values a field of `width` bytes can hold.
pub open spec fn field_capacity(width: nat) -> nat
    decreases width,
{
    if width == 0 {
        1
    } else {
        256 * field_capacity((width - 1) as nat)
    }
}

/// A field of `width` bytes is `width` bytes long.
pub proof fn lemma_be_bytes_len(value: nat, width: nat)
    ensures
        be_bytes(value, width).len() == width,
    decreases width,
{
    if width > 0 {
        lemma_be_bytes_len(value / 256, (width - 1) as nat);
    }
}

/// Reading a field back gives the value that was written, as long as the
/// value fits the field.
pub proof fn lemma_be_round_trip(value: nat, width: nat)
    requires
        value < field_capacity(width),
    ensures
        be_value(be_bytes(value, width)) == value,
    decreases width,
{
    if width > 0 {
        let rest = be_bytes(value / 256, (width - 1) as nat);
        lemma_be_round_trip(value / 256, (width - 1) as nat);
        assert(be_bytes(value, width).drop_last() =~= rest);
    }
}

/// A field is its high-order bytes followed by its low-order bytes.
pub proof fn lemma_be_bytes_split(value: nat, high: nat, low: nat)
    ensures
        be_bytes(value, high + low) == be_bytes(value / field_capacity(low), high) + be_bytes(
            value % field_capacity(low),
            low,
        ),
    decreases low,
{
    if low == 0 {
        assert(be_bytes(value, high) + be_bytes(0, 0) =~= be_bytes(value, high));
    } else {
        let below = (low - 1) as nat;
        let capacity = field_capacity(below);
        lemma_field_capacity_positive(below);
        lemma_be_bytes_split(value / 256, high, below);
        assert(value / 256 / capacity == value / (256 * capacity) && value / 256 % capacity == value
            % (256 * capacity) / 256 && value % (256 * capacity) % 256 == value % 256)
            by (nonlinear_arith)
            requires
                capacity > 0,
        ;
        assert(be_bytes(value, high + low) =~= be_bytes(value / field_capacity(low), high)
            + be_bytes(value % field_capacity(low), low));
    }
}

/// A field can hold at least one value.
pub proof fn lemma_field_capacity_positive(width: nat)
    ensures
        field_capacity(width) > 0,
    decreases width,
{
    if width > 0 {
        lemma_field_capacity_positive((width - 1) as nat);
    }
}

/// The bytes of a 16-bit unsigned field.
pub open spec fn u16_be(value: u16) -> Seq<u8> {
    be_bytes(value as nat, 2)
}

/// The bytes of a 32-bit unsigned field.
pub open spec fn u32_be(value: u32) -> Seq<u8> {
    be_bytes(value as nat, 4)
}

/// The bytes of a 64-bit unsigned field.
pub open spec fn u64_be(value: u64) -> Seq<u8> {
    be_bytes(value as nat, 8)
}

/// The bytes of a 32-bit signed field, in two's complement.
pub open spec fn i32_be(value: i32) -> Seq<u8> {
    be_bytes((if value < 0 { value + 0x1_0000_0000 } else { value as int }) as nat, 4)
}

/// The bytes of a 64-bit signed field, in two's complement.
pub open spec fn i64_be(value: i64) -> Seq<u8> {
    be_bytes((if value < 0 { value + 0x1_0000_0000_0000_0000 } else { value as int }) as nat, 8)
}

/// Fields appended one by one after `before` make up one record appended
/// after `before`.
pub proof fn lemma_fields_after(before: Seq<u8>)
    ensures
        forall|record: Seq<u8>, field: Seq<u8>| #[trigger]
            ((before + record) + field) == before + (record + field),
{
    assert forall|record: Seq<u8>, field: Seq<u8>| #[trigger]
        ((before + record) + field) == before + (record + field) by {
        assert((before + record) + field =~= before + (record + field));
    }
}

/// Appends a single byte.
pub fn push_u8(out: &mut Vec<u8>, value: u8)
    ensures
        final(out)@ == old(out)@ + seq![value],
{
    out.push(value);
    proof {
        assert(out@ =~= old(out)@ + seq![value]);
    }
}

/// Appends a 16-bit unsigned field.
pub fn push_u16(out: &mut Vec<u8>, value: u16)
    ensures
        final(out)@ == old(out)@ + u16_be(value),
{
    let b1 = (value % 256) as u8;
    let b0 = (value / 256) as u8;
    proof {
        reveal_with_fuel(be_bytes, 3);
        assert(u16_be(value) =~= seq![b0, b1]);
    }
    out.push(b0);
    out.push(b1);
    proof {
        assert(out@ =~= old(out)@ + seq![b0, b1]);
    }
}

/// Appends a 32-bit unsigned field.
pub fn push_u32(out: &mut Vec<u8>, value: u32)
    ensures
        final(out)@ == old(out)@ + u32_be(value),
{
    let b3 = (value % 256) as u8;
    let rest = value / 256;
    let b2 = (rest % 256) as u8;
    let rest = rest / 256;
    let b1 = (rest % 256) as u8;
    let b0 = (rest / 256) as u8;
    proof {
        reveal_with_fuel(be_bytes, 5);
        assert(u32_be(value) =~= seq![b0, b1, b2, b3]);
    }
    out.push(b0);
    out.push(b1);
    out.push(b2);
    out.push(b3);
    proof {
        assert(out@ =~= old(out)@ + seq![b0, b1, b2, b3]);
    }
}

/// Appends a 64-bit unsigned field.
pub fn push_u64(out: &mut Vec<u8>, value: u64)
    ensures
        final(out)@ == old(out)@ + u64_be(value),
{
    let low = (value % 0x1_0000_0000) as u32;
    let high = (value / 0x1_0000_0000) as u32;
    proof {
        lemma_be_bytes_split(value as nat, 4, 4);
        assert(field_capacity(4) == 0x1_0000_0000) by {
            reveal_with_fuel(field_capacity, 5);
        }
        lemma_fields_after(out@);
    }
    push_u32(out, high);
    push_u32(out, low);
}

/// Appends a 32-bit signed field.
pub fn push_i32(out: &mut Vec<u8>, value: i32)
    ensures
        final(out)@ == old(out)@ + i32_be(value),
{
    let bits = value as u32;
    proof {
        assert(bits == if value < 0 {
            value + 0x1_0000_0000
        } else {
            value as int
        }) by (bit_vector)
            requires
                bits == value as u32,
        ;
    }
    push_u32(out, bits);
}

/// Appends a 64-bit signed field.
pub fn push_i64(out: &mut Vec<u8>, value: i64)
    ensures
        final(out)@ == old(out)@ + i64_be(value),
{
    let bits = value as u64;
    proof {
        assert(bits == if value < 0 {
            value + 0x1_0000_0000_0000_0000
        } else {
            value as int
        }) by (bit_vector)
            requires
                bits == value as u64,
        ;
    }
    push_u64(out, bits);
}

} // verus!
