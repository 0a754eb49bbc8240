//! Text and fixed-capacity collections that come from outside this library:
//! the UTF-8 check of `std` and the inline strings and vectors of the
//! `arrayvec` crate.
//!
//! Verus does not look inside these types. What a value of them holds goes by
//! the names declared here, and every contract in this file is taken on trust
//! from the sources of `std` and `arrayvec`; nothing in it is proved.

use crate::pe::Section;
use arrayvec::ArrayString;
use arrayvec::ArrayVec;
use arrayvec::CapacityError;
use std::str::Utf8Error;
use vstd::prelude::*;
use vstd::string::StringSliceAdditionalSpecFns;
use vstd::utf8::valid_utf8;

verus! {

/// `arrayvec::ArrayString`: a string stored inline, of at most `CAP` bytes.
#[verifier::external_type_specification]
#[verifier::external_body]
pub struct ExArrayString<const CAP: usize>(ArrayString<CAP>);

/// `arrayvec::ArrayVec`: a vector stored inline, of at most `CAP` elements.
#[verifier::external_type_specification]
#[verifier::external_body]
#[verifier::reject_recursive_types(T)]
pub struct ExArrayVec<T, const CAP: usize>(ArrayVec<T, CAP>);

/// `arrayvec::CapacityError`: what did not fit into a full collection.
#[verifier::external_type_specification]
#[verifier::external_body]
#[verifier::reject_recursive_types(T)]
pub struct ExCapacityError<T>(CapacityError<T>);

/// `std::str::Utf8Error`: where a byte sequence stops being UTF-8.
#[verifier::external_type_specification]
#[verifier::external_body]
pub struct ExUtf8Error(Utf8Error);

/// `ArrayVec::clone`. Nothing is claimed of the copy.
pub assume_specification<T, const CAP: usize>[ <ArrayVec<T, CAP> as Clone>::clone ](
    v: &ArrayVec<T, CAP>,
) -> (r: ArrayVec<T, CAP>) where T: Clone
;

/// The bytes that a section name holds.
pub uninterp spec fn section_name_bytes(s: ArrayString<8>) -> Seq<u8>;

/// The bytes that a stream name holds.
pub uninterp spec fn stream_name_bytes(s: ArrayString<32>) -> Seq<u8>;

/// The bytes that a version string holds.
pub uninterp spec fn version_bytes(s: ArrayString<256>) -> Seq<u8>;

/// The bytes gathered so far in the buffer of a stream name.
pub uninterp spec fn name_buffer_bytes(v: ArrayVec<u8, 32>) -> Seq<u8>;

/// The sections that a section table holds, in their order.
pub uninterp spec fn section_list(v: ArrayVec<Section, 16>) -> Seq<Section>;

/// `std::str::from_utf8`: the string slice over `b`, which exists exactly
/// when `b` is UTF-8, and then has the bytes of `b`.
#[verifier::external_body]
pub(crate) fn str_from_utf8(b: &[u8]) -> (r: Result<&str, Utf8Error>)
    ensures
        r is Ok <==> valid_utf8(b@),
        r matches Ok(s) ==> s.spec_bytes() == b@,
{
    std::str::from_utf8(b)
}

/// `ArrayString::from_byte_string` at capacity 8: a name that holds the
/// eight bytes of `b`, which exists exactly when they are UTF-8.
#[verifier::external_body]
pub(crate) fn section_name_from_bytes(b: &[u8; 8]) -> (r: Result<ArrayString<8>, Utf8Error>)
    ensures
        r is Ok <==> valid_utf8(b@),
        r matches Ok(s) ==> section_name_bytes(s) == b@,
{
    ArrayString::from_byte_string(b)
}

/// `ArrayString::try_from` at capacity 256: a string that holds the bytes
/// of `s`, which exists exactly when they are at most 256.
#[verifier::external_body]
pub(crate) fn version_from_str(s: &str) -> (r: Result<ArrayString<256>, CapacityError<&str>>)
    ensures
        r is Ok <==> s.spec_bytes().len() <= 256,
        r matches Ok(v) ==> version_bytes(v) == s.spec_bytes(),
{
    ArrayString::try_from(s)
}

/// `ArrayString::try_from` at capacity 32: a name that holds the bytes of
/// `s`, which exists exactly when they are at most 32.
#[verifier::external_body]
pub(crate) fn stream_name_from_str(s: &str) -> (r: Result<ArrayString<32>, CapacityError<&str>>)
    ensures
        r is Ok <==> s.spec_bytes().len() <= 32,
        r matches Ok(n) ==> stream_name_bytes(n) == s.spec_bytes(),
{
    ArrayString::try_from(s)
}

/// `ArrayString::as_str` on a stream name: the string slice over the bytes
/// that the name holds.
#[verifier::external_body]
pub(crate) fn stream_name_str(n: &ArrayString<32>) -> (s: &str)
    ensures
        s.spec_bytes() == stream_name_bytes(*n),
{
    n.as_str()
}

/// `ArrayVec::new` for the buffer of a stream name: it holds nothing.
#[verifier::external_body]
pub(crate) fn name_buffer_new() -> (v: ArrayVec<u8, 32>)
    ensures
        name_buffer_bytes(v) == Seq::<u8>::empty(),
{
    ArrayVec::new()
}

/// `ArrayVec::try_extend_from_slice` on the buffer of a stream name: where
/// `other` fits into what is left of the 32 bytes it is appended, and else
/// the buffer stays as it was.
#[verifier::external_body]
pub(crate) fn name_buffer_extend(v: &mut ArrayVec<u8, 32>, other: &[u8]) -> (r: Result<
    (),
    CapacityError<()>,
>)
    ensures
        r is Ok <==> name_buffer_bytes(*old(v)).len() + other@.len() <= 32,
        r is Ok ==> name_buffer_bytes(*final(v)) == name_buffer_bytes(*old(v)) + other@,
        r is Err ==> name_buffer_bytes(*final(v)) == name_buffer_bytes(*old(v)),
{
    v.try_extend_from_slice(other)
}

/// `ArrayVec::as_slice` on the buffer of a stream name: the bytes gathered.
#[verifier::external_body]
pub(crate) fn name_buffer_slice(v: &ArrayVec<u8, 32>) -> (s: &[u8])
    ensures
        s@ == name_buffer_bytes(*v),
{
    v.as_slice()
}

/// `ArrayVec::new` for a section table: it holds nothing.
#[verifier::external_body]
pub(crate) fn sections_new() -> (v: ArrayVec<Section, 16>)
    ensures
        section_list(v) == Seq::<Section>::empty(),
{
    ArrayVec::new()
}

/// `ArrayVec::push` on a section table that is not full: `s` is appended.
/// On a full table the call would panic.
#[verifier::external_body]
pub(crate) fn sections_push(v: &mut ArrayVec<Section, 16>, s: Section)
    requires
        section_list(*old(v)).len() < 16,
    ensures
        section_list(*final(v)) == section_list(*old(v)).push(s),
{
    v.push(s)
}

/// `ArrayVec::as_slice` on a section table: its sections, in their order.
#[verifier::external_body]
pub(crate) fn sections_slice(v: &ArrayVec<Section, 16>) -> (s: &[Section])
    ensures
        s@ == section_list(*v),
{
    v.as_slice()
}

} // verus!
