//! Content-derived 64-bit references.
//!
//! A record's reference is the digest that the standard library's default
//! hasher gives of the record's fields, fed to it one after the other. Text
//! goes in as its UTF-8 bytes followed by the byte `0xff`, which no UTF-8 text
//! holds, so that two neighbouring texts cannot run into each other. Numbers
//! go in as their little-endian bytes.
use std::collections::hash_map::DefaultHasher;
use std::hash::Hasher;
use vstd::bytes::{
    spec_u128_to_le_bytes, spec_u64_to_le_bytes, u128_to_le_bytes, u64_to_le_bytes,
};
use vstd::prelude::*;
use vstd::std_specs::hash::DefaultHasherAdditionalSpecFns;
use vstd::utf8::encode_utf8;

verus! {

/// The writes that have reached a hasher once the text `s` has followed `w`.
pub open spec fn with_text(w: Seq<Seq<u8>>, s: Seq<char>) -> Seq<Seq<u8>> {
    w.push(encode_utf8(s)).push(seq![0xffu8])
}

/// The writes that have reached a hasher once the amount `x` has followed `w`.
pub open spec fn with_u128(w: Seq<Seq<u8>>, x: u128) -> Seq<Seq<u8>> {
    w.push(spec_u128_to_le_bytes(x))
}

/// The writes that have reached a hasher once the number `x` has followed `w`.
pub open spec fn with_u64(w: Seq<Seq<u8>>, x: u64) -> Seq<Seq<u8>> {
    w.push(spec_u64_to_le_bytes(x))
}

/// The writes that have reached a hasher once the signed number `x` has
/// followed `w`: a signed number goes in as the unsigned number with the same
/// bits.
pub open spec fn with_i64(w: Seq<Seq<u8>>, x: i64) -> Seq<Seq<u8>> {
    w.push(spec_u64_to_le_bytes(x as u64))
}

/// The digest of a sequence of writes.
pub open spec fn digest_of(w: Seq<Seq<u8>>) -> u64 {
    DefaultHasher::spec_finish(w)
}

/// Feeds a text to the hasher.
pub fn write_text(h: &mut DefaultHasher, s: &String)
    ensures
        final(h)@ == with_text(old(h)@, s@),
{
    h.write(s.as_str().as_bytes());
    let end: [u8; 1] = [0xffu8];
    h.write(end.as_slice());
    assert(end@ =~= seq![0xffu8]);
}

/// Feeds an amount to the hasher.
pub fn write_u128(h: &mut DefaultHasher, x: u128)
    ensures
        final(h)@ == with_u128(old(h)@, x),
{
    let bytes = u128_to_le_bytes(x);
    h.write(bytes.as_slice());
}

/// Feeds an unsigned number to the hasher.
pub fn write_u64(h: &mut DefaultHasher, x: u64)
    ensures
        final(h)@ == with_u64(old(h)@, x),
{
    let bytes = u64_to_le_bytes(x);
    h.write(bytes.as_slice());
}

/// Feeds a signed number to the hasher.
pub fn write_i64(h: &mut DefaultHasher, x: i64)
    ensures
        final(h)@ == with_i64(old(h)@, x),
{
    let bytes = u64_to_le_bytes(x as u64);
    h.write(bytes.as_slice());
}

} // verus!
