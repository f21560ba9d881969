//! Bit arithmetic on a 16-bit frame: the meaning of every field write.
use vstd::prelude::*;

verus! {

/// The low `len` bits set: what a field of `len` bits can hold.
pub open spec fn mask(len: u16) -> u16 {
    !(0xffffu16 << len)
}

/// The bits that a field of `len` bits at offset `shift` occupies.
pub open spec fn field_mask(len: u16, shift: u16) -> u16 {
    mask(len) << shift
}

/// The frame `data` with `value`, cut to `len` bits, stored at offset `shift`.
pub open spec fn with_bits(data: u16, len: u16, shift: u16, value: u8) -> u16 {
    (data & !(mask(len) << shift)) | (((value as u16) & mask(len)) << shift)
}

/// The frame `data` with bit `pos` set.
pub open spec fn with_bit_set(data: u16, pos: u16) -> u16 {
    data | (1u16 << pos)
}

/// The frame `data` with bit `pos` cleared.
pub open spec fn with_bit_clear(data: u16, pos: u16) -> u16 {
    data & !(1u16 << pos)
}

/// The frame `data` with bit `pos` made equal to `value`.
pub open spec fn with_bit(data: u16, pos: u16, value: bool) -> u16 {
    if value {
        with_bit_set(data, pos)
    } else {
        with_bit_clear(data, pos)
    }
}

/// What the field of `len` bits at offset `shift` holds in `data`.
pub open spec fn field_of(data: u16, len: u16, shift: u16) -> u16 {
    (data >> shift) & mask(len)
}

/// Whether bit `pos` of `data` is set.
pub open spec fn bit_of(data: u16, pos: u16) -> bool {
    (data >> pos) & 1 == 1
}

/// The register address that a frame carries: its top seven bits.
pub open spec fn address_of(data: u16) -> u16 {
    data >> 9
}

/// The register payload that a frame carries: its low nine bits.
pub open spec fn payload_of(data: u16) -> u16 {
    data & 0x1ff
}

/// The frame made of a register address and a payload.
pub open spec fn frame_of(address: u16, payload: u16) -> u16 {
    (address << 9) | payload
}

/// Stores `value`, cut to `len` bits, in the field at offset `shift`.
/// A value wider than the field loses its upper bits; nothing outside the
/// field changes.
pub fn write_bits(data: u16, len: u16, shift: u16, value: u8) -> (r: u16)
    requires
        len < 16,
        shift < 16,
    ensures
        r == with_bits(data, len, shift, value),
{
    let mask: u16 = !(0xffffu16 << len) << shift;
    let r: u16 = data & !mask | (value as u16) << shift & mask;
    assert(r == with_bits(data, len, shift, value)) by (bit_vector)
        requires
            len < 16,
            shift < 16,
            mask == !(0xffffu16 << len) << shift,
            r == data & !mask | (value as u16) << shift & mask,
    ;
    r
}

/// Sets bit `pos`.
pub fn set_bit(data: u16, pos: u16) -> (r: u16)
    requires
        pos < 16,
    ensures
        r == with_bit_set(data, pos),
{
    data | (1u16 << pos)
}

/// Clears bit `pos`.
pub fn clear_bit(data: u16, pos: u16) -> (r: u16)
    requires
        pos < 16,
    ensures
        r == with_bit_clear(data, pos),
{
    data & !(1u16 << pos)
}

/// Makes bit `pos` equal to `value`.
pub fn write_bit(data: u16, pos: u16, value: bool) -> (r: u16)
    requires
        pos < 16,
    ensures
        r == with_bit(data, pos, value),
{
    let bit: u16 = if value { 1 } else { 0 };
    let r: u16 = data & !(1u16 << pos) | bit << pos;
    assert(r == with_bit(data, pos, value)) by (bit_vector)
        requires
            pos < 16,
            bit == (if value { 1u16 } else { 0u16 }),
            r == data & !(1u16 << pos) | bit << pos,
    ;
    r
}

/// A write to a field that lies within the payload leaves the register
/// address of the frame as it was.
pub proof fn lemma_bits_keep_address(data: u16, len: u16, shift: u16, value: u8)
    by (bit_vector)
    requires
        len + shift <= 9,
    ensures
        address_of(with_bits(data, len, shift, value)) == address_of(data),
{
}

/// Setting or clearing a payload bit leaves the register address of the
/// frame as it was.
pub proof fn lemma_bit_keeps_address(data: u16, pos: u16)
    by (bit_vector)
    requires
        pos < 9,
    ensures
        address_of(with_bit_set(data, pos)) == address_of(data),
        address_of(with_bit_clear(data, pos)) == address_of(data),
{
}

/// A frame made of an address and a payload gives both back.
pub proof fn lemma_frame_parts(address: u16, payload: u16)
    by (bit_vector)
    requires
        address < 128,
        payload < 512,
    ensures
        address_of(frame_of(address, payload)) == address,
        payload_of(frame_of(address, payload)) == payload,
{
}

/// Setting a bit makes that bit one and changes no other bit.
pub proof fn lemma_set_bit_touches_one_bit(data: u16, pos: u16)
    by (bit_vector)
    requires
        pos < 16,
    ensures
        bit_of(with_bit_set(data, pos), pos),
        with_bit_set(data, pos) & !(1u16 << pos) == data & !(1u16 << pos),
{
}

/// Clearing a bit makes that bit zero and changes no other bit.
pub proof fn lemma_clear_bit_touches_one_bit(data: u16, pos: u16)
    by (bit_vector)
    requires
        pos < 16,
    ensures
        !bit_of(with_bit_clear(data, pos), pos),
        with_bit_clear(data, pos) & !(1u16 << pos) == data & !(1u16 << pos),
{
}

/// Whether a bit outside position `pos` is set does not depend on a write to
/// bit `pos`.
pub proof fn lemma_other_bits_kept(data: u16, pos: u16, other: u16)
    by (bit_vector)
    requires
        pos < 16,
        other < 16,
        other != pos,
    ensures
        bit_of(with_bit_set(data, pos), other) == bit_of(data, other),
        bit_of(with_bit_clear(data, pos), other) == bit_of(data, other),
{
}

/// After a field write the field holds the value cut to the field's width,
/// and every bit outside the field is as before.
pub proof fn lemma_bits_touch_one_field(data: u16, len: u16, shift: u16, value: u8)
    by (bit_vector)
    requires
        len + shift <= 16,
    ensures
        field_of(with_bits(data, len, shift, value), len, shift) == (value as u16) & mask(len),
        with_bits(data, len, shift, value) & !field_mask(len, shift) == data & !field_mask(
            len,
            shift,
        ),
{
}

/// A write to one field leaves what another field holds, where the two do
/// not overlap.
pub proof fn lemma_bits_leave_other_field(
    data: u16,
    len: u16,
    shift: u16,
    value: u8,
    other_len: u16,
    other_shift: u16,
)
    by (bit_vector)
    requires
        len + shift <= 16,
        other_len + other_shift <= 16,
        shift + len <= other_shift || other_shift + other_len <= shift,
    ensures
        field_of(with_bits(data, len, shift, value), other_len, other_shift) == field_of(
            data,
            other_len,
            other_shift,
        ),
{
}

/// Writes to two fields that do not overlap can be made in either order.
pub proof fn lemma_bits_commute(
    data: u16,
    len: u16,
    shift: u16,
    value: u8,
    other_len: u16,
    other_shift: u16,
    other_value: u8,
)
    by (bit_vector)
    requires
        len + shift <= 16,
        other_len + other_shift <= 16,
        shift + len <= other_shift || other_shift + other_len <= shift,
    ensures
        with_bits(with_bits(data, len, shift, value), other_len, other_shift, other_value)
            == with_bits(with_bits(data, other_len, other_shift, other_value), len, shift, value),
{
}

/// A value that fits the field is read back as it was written.
pub proof fn lemma_bits_read_back(data: u16, len: u16, shift: u16, value: u8)
    by (bit_vector)
    requires
        len + shift <= 16,
        len < 16,
        value < (1u16 << len),
    ensures
        field_of(with_bits(data, len, shift, value), len, shift) == value,
{
}

/// Writing the same value to a field twice gives what writing it once gives.
pub proof fn lemma_bits_idempotent(data: u16, len: u16, shift: u16, value: u8)
    by (bit_vector)
    requires
        len < 16,
        shift < 16,
    ensures
        with_bits(with_bits(data, len, shift, value), len, shift, value) == with_bits(
            data,
            len,
            shift,
            value,
        ),
{
}

/// Of two writes to one field only the second one counts.
pub proof fn lemma_bits_last_write_wins(data: u16, len: u16, shift: u16, first: u8, second: u8)
    by (bit_vector)
    requires
        len < 16,
        shift < 16,
    ensures
        with_bits(with_bits(data, len, shift, first), len, shift, second) == with_bits(
            data,
            len,
            shift,
            second,
        ),
{
}

/// Setting a bit twice gives what setting it once gives, and so for clearing.
pub proof fn lemma_bit_idempotent(data: u16, pos: u16)
    by (bit_vector)
    requires
        pos < 16,
    ensures
        with_bit_set(with_bit_set(data, pos), pos) == with_bit_set(data, pos),
        with_bit_clear(with_bit_clear(data, pos), pos) == with_bit_clear(data, pos),
{
}

/// Of two writes to one bit only the second one counts.
pub proof fn lemma_bit_last_write_wins(data: u16, pos: u16, first: bool, second: bool)
    by (bit_vector)
    requires
        pos < 16,
    ensures
        with_bit(with_bit(data, pos, first), pos, second) == with_bit(data, pos, second),
{
}

/// A one-bit field written with `bits` is the bit written with `bit`.
pub proof fn lemma_bit_is_field_of_one(data: u16, pos: u16, value: bool)
    by (bit_vector)
    requires
        pos < 16,
    ensures
        with_bit(data, pos, value) == with_bits(data, 1, pos, if value { 1u8 } else { 0u8 }),
{
}

} // verus!
