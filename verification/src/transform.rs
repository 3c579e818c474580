//! The byte-shift cipher: a Caesar-style substitution over byte values.
//!
//! A shift is reduced modulo [`SHIFT_MODULUS`] before use. Encoding adds the
//! reduced shift to every byte; a sum above [`WINDOW_HIGH`] wraps to one below
//! [`WINDOW_LOW`] plus the shift. Decoding subtracts; a difference below
//! [`WINDOW_LOW`] wraps to one above [`WINDOW_HIGH`] minus the shift.
//!
//! The wrap is not a rotation: every byte whose sum leaves the window lands on
//! the same output. [`lemma_byte_round_trip`] says exactly which bytes decoding
//! gives back.

use vstd::prelude::*;

verus! {

/// Lowest byte of the printable window.
pub const WINDOW_LOW: u8 = 32;

/// Highest byte of the printable window.
pub const WINDOW_HIGH: u8 = 126;

/// Shifts are taken modulo this number.
pub const SHIFT_MODULUS: u8 = 26;

/// Whether `v` lies in the printable window.
pub open spec fn in_window(v: u8) -> bool {
    WINDOW_LOW <= v <= WINDOW_HIGH
}

/// The amount by which bytes move for a requested `shift`.
pub open spec fn effective_shift(shift: u8) -> int {
    shift as int % SHIFT_MODULUS as int
}

/// The byte that encoding makes of `v`.
pub open spec fn encoded_byte(v: u8, shift: u8) -> u8 {
    let s = effective_shift(shift);
    if v + s > WINDOW_HIGH {
        (WINDOW_LOW - 1 + s) as u8
    } else {
        (v + s) as u8
    }
}

/// The byte that decoding makes of `v`.
pub open spec fn decoded_byte(v: u8, shift: u8) -> u8 {
    let s = effective_shift(shift);
    if v - s < WINDOW_LOW {
        (WINDOW_HIGH + 1 - s) as u8
    } else {
        (v - s) as u8
    }
}

/// The sequence that encoding makes of `bytes`: each byte encoded in place.
pub open spec fn encoded(bytes: Seq<u8>, shift: u8) -> Seq<u8> {
    Seq::new(bytes.len(), |i: int| encoded_byte(bytes[i], shift))
}

/// The sequence that decoding makes of `bytes`: each byte decoded in place.
pub open spec fn decoded(bytes: Seq<u8>, shift: u8) -> Seq<u8> {
    Seq::new(bytes.len(), |i: int| decoded_byte(bytes[i], shift))
}

/// Reduces a requested shift to the amount that is applied.
pub fn reduce_shift(shift: u8) -> (s: u8)
    ensures
        s == effective_shift(shift),
        s < SHIFT_MODULUS,
{
    shift % SHIFT_MODULUS
}

/// Encodes one byte.
pub fn encode_byte(v: u8, shift: u8) -> (r: u8)
    ensures
        r == encoded_byte(v, shift),
{
    let s: u8 = reduce_shift(shift);
    if v > WINDOW_HIGH - s {
        WINDOW_LOW - 1 + s
    } else {
        v + s
    }
}

/// Decodes one byte.
pub fn decode_byte(v: u8, shift: u8) -> (r: u8)
    ensures
        r == decoded_byte(v, shift),
{
    let s: u8 = reduce_shift(shift);
    if v < WINDOW_LOW + s {
        WINDOW_HIGH + 1 - s
    } else {
        v - s
    }
}

/// Encodes a byte sequence; the input is not assumed to be text.
pub fn encode(bytes: &[u8], shift: u8) -> (out: Vec<u8>)
    ensures
        out@ == encoded(bytes@, shift),
{
    let mut out: Vec<u8> = Vec::new();
    let mut i: usize = 0;
    while i < bytes.len()
        invariant
            i <= bytes.len(),
            out@ == encoded(bytes@.subrange(0, i as int), shift),
        decreases bytes.len() - i,
    {
        out.push(encode_byte(bytes[i], shift));
        i += 1;
    }
    assert(bytes@.subrange(0, i as int) == bytes@);
    out
}

/// Decodes a byte sequence; the input is not assumed to be text.
pub fn decode(bytes: &[u8], shift: u8) -> (out: Vec<u8>)
    ensures
        out@ == decoded(bytes@, shift),
{
    let mut out: Vec<u8> = Vec::new();
    let mut i: usize = 0;
    while i < bytes.len()
        invariant
            i <= bytes.len(),
            out@ == decoded(bytes@.subrange(0, i as int), shift),
        decreases bytes.len() - i,
    {
        out.push(decode_byte(bytes[i], shift));
        i += 1;
    }
    assert(bytes@.subrange(0, i as int) == bytes@);
    out
}

/// Decoding gives an encoded byte back exactly when the byte is at or above
/// the window's low end and its sum with the shift is at most one past the
/// window's high end.
pub proof fn lemma_byte_round_trip(v: u8, shift: u8)
    ensures
        decoded_byte(encoded_byte(v, shift), shift) == v <==> WINDOW_LOW <= v && v
            + effective_shift(shift) <= WINDOW_HIGH + 1,
{
}

/// Encoding and decoding keep a byte of the printable window inside it.
pub proof fn lemma_window_kept(v: u8, shift: u8)
    requires
        in_window(v),
    ensures
        in_window(encoded_byte(v, shift)),
        in_window(decoded_byte(v, shift)),
{
}

/// A shift that reduces to zero leaves every byte of the printable window as
/// it is, in both directions.
pub proof fn lemma_zero_shift_is_identity(bytes: Seq<u8>, shift: u8)
    requires
        effective_shift(shift) == 0,
        forall|i: int| 0 <= i < bytes.len() ==> in_window(#[trigger] bytes[i]),
    ensures
        encoded(bytes, shift) == bytes,
        decoded(bytes, shift) == bytes,
{
}

/// Decoding undoes encoding on printable bytes: for a shift from 1 to 25 and
/// bytes of the printable window, none of which the shift carries more than
/// one past the window's high end, decoding the encoded sequence with the same
/// shift gives the sequence back.
pub proof fn lemma_round_trip(bytes: Seq<u8>, shift: u8)
    requires
        1 <= shift <= 25,
        forall|i: int| 0 <= i < bytes.len() ==> in_window(#[trigger] bytes[i]),
        forall|i: int| 0 <= i < bytes.len() ==> #[trigger] bytes[i] + shift <= WINDOW_HIGH + 1,
    ensures
        decoded(encoded(bytes, shift), shift) == bytes,
{
    assert forall|i: int| 0 <= i < bytes.len() implies decoded(encoded(bytes, shift), shift)[i]
        == bytes[i] by {
        lemma_byte_round_trip(bytes[i], shift);
    }
}

/// Both directions keep the length of their input.
pub proof fn lemma_length_kept(bytes: Seq<u8>, shift: u8)
    ensures
        encoded(bytes, shift).len() == bytes.len(),
        decoded(bytes, shift).len() == bytes.len(),
{
}

} // verus!
