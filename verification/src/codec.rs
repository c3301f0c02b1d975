//! The fixed binary object-serialization format used at the channel
//! boundary.
//!
//! Payload values are encoded to bytes when they enter a channel and decoded
//! when they leave it.  The encoding itself is done by an outside
//! serialization library; this module names its results and states the one
//! fact the bridge depends on: decoding inverts encoding, so no send is ever
//! delivered as a different value (round trip).  The encoding's length
//! header is 32 bits wide and the library truncates longer lengths into it,
//! so the inversion is claimed only of payloads whose length fits the
//! header; beyond it a buffer decodes to a shorter value.  The library has
//! no generic story for arbitrary payload types under verification, so the
//! two payload shapes the bridge offers, text and raw byte strings, are
//! each given their own boundary.

use vstd::prelude::*;

verus! {

/// The bytes of the fixed binary encoding of a text payload.  The encoding
/// is a pure function of the characters alone; its exact shape is the
/// serialization library's business and is deliberately left unstated.
pub uninterp spec fn msgpack_of_string(s: Seq<char>) -> Seq<u8>;

/// The bytes of the fixed binary encoding of a raw byte-string payload.
pub uninterp spec fn msgpack_of_bytes(b: Seq<u8>) -> Seq<u8>;

/// Relies on rmp_serde::to_vec instantiated at String: serializes the value
/// as MessagePack, a function of the characters alone.  Serialization of a
/// string into a byte vector cannot fail (only a payload type's own
/// serializer can make to_vec fail, and a string's never does), and always
/// writes a marker byte before the data, so the encoding is never empty.
#[verifier::external_body]
fn msgpack_encode_string(value: &String) -> (r: Vec<u8>)
    ensures
        r@ == msgpack_of_string(value@),
        r@.len() >= 1,
{
    rmp_serde::to_vec(value).unwrap()
}

/// Relies on rmp_serde::from_slice instantiated at String: decodes
/// MessagePack bytes, failing on a malformed buffer.  On any buffer that
/// rmp_serde::to_vec produced from a string it returns that string back:
/// deserialization inverts serialization.  The string's byte length sits in
/// a 32-bit header (and is truncated into it when longer, with every byte
/// still written), so the inversion is claimed only where the UTF-8 length
/// surely fits: up to four bytes per character, hence the bound.
#[verifier::external_body]
fn msgpack_decode_string(bytes: &[u8]) -> (r: Option<String>)
    ensures
        forall|s: Seq<char>|
            4 * s.len() <= u32::MAX as int && bytes@ == #[trigger] msgpack_of_string(s)
                ==> r is Some && r.unwrap()@ == s,
{
    rmp_serde::from_slice::<String>(bytes).ok()
}

/// Relies on rmp_serde::to_vec instantiated at Vec<u8>: serializes the raw
/// byte string as MessagePack, a function of the bytes alone; cannot fail
/// for this payload type, and always writes a marker byte before the data,
/// so the encoding is never empty.
#[verifier::external_body]
fn msgpack_encode_bytes(value: &Vec<u8>) -> (r: Vec<u8>)
    ensures
        r@ == msgpack_of_bytes(value@),
        r@.len() >= 1,
{
    rmp_serde::to_vec(value).unwrap()
}

/// Relies on rmp_serde::from_slice instantiated at Vec<u8>: decodes
/// MessagePack bytes, failing on a malformed buffer; inverts
/// rmp_serde::to_vec on every buffer the latter produced whose element
/// count fits the encoding's 32-bit length header (longer counts are
/// truncated into it, with every element still written).
#[verifier::external_body]
fn msgpack_decode_bytes(bytes: &[u8]) -> (r: Option<Vec<u8>>)
    ensures
        forall|b: Seq<u8>|
            b.len() <= u32::MAX as int && bytes@ == #[trigger] msgpack_of_bytes(b)
                ==> r is Some && r.unwrap()@ == b,
{
    rmp_serde::from_slice::<Vec<u8>>(bytes).ok()
}

/// Encodes a text payload for the wire; the encoding is never empty, so an
/// encoded payload can never be mistaken for the fetch protocol's empty
/// not-found marker.
pub fn encode_string(value: &String) -> (r: Vec<u8>)
    ensures
        r@ == msgpack_of_string(value@),
        r@.len() >= 1,
{
    msgpack_encode_string(value)
}

/// Decodes a wire buffer back into a text payload; `None` on a malformed
/// buffer, and the payload back on every buffer [`encode_string`] produced
/// from a string whose UTF-8 length surely fits the 32-bit length header.
pub fn decode_string(bytes: &Vec<u8>) -> (r: Option<String>)
    ensures
        forall|s: Seq<char>|
            4 * s.len() <= u32::MAX as int && bytes@ == #[trigger] msgpack_of_string(s)
                ==> r is Some && r.unwrap()@ == s,
{
    msgpack_decode_string(bytes.as_slice())
}

/// Encodes a raw byte-string payload for the wire; the encoding is never
/// empty, so an encoded payload can never be mistaken for the fetch
/// protocol's empty not-found marker.
pub fn encode_bytes(value: &Vec<u8>) -> (r: Vec<u8>)
    ensures
        r@ == msgpack_of_bytes(value@),
        r@.len() >= 1,
{
    msgpack_encode_bytes(value)
}

/// Decodes a wire buffer back into a raw byte-string payload; `None` on a
/// malformed buffer, and the payload back on every buffer [`encode_bytes`]
/// produced from one whose length fits the 32-bit length header.
pub fn decode_bytes(bytes: &Vec<u8>) -> (r: Option<Vec<u8>>)
    ensures
        forall|b: Seq<u8>|
            b.len() <= u32::MAX as int && bytes@ == #[trigger] msgpack_of_bytes(b)
                ==> r is Some && r.unwrap()@ == b,
{
    msgpack_decode_bytes(bytes.as_slice())
}

/// Law: decoding the encoding of any text payload yields the payload back.
/// Stated below the encoding's 32-bit length header (at most four UTF-8
/// bytes per character): a payload whose byte length overflows the header
/// is written with a truncated header and decodes to a shorter value.
pub fn roundtrip_string(value: &String) -> (r: Option<String>)
    requires
        4 * value@.len() <= u32::MAX as int,
    ensures
        r matches Some(m) && m@ == value@,
{
    let encoded = encode_string(value);
    decode_string(&encoded)
}

/// Law: decoding the encoding of any raw byte-string payload yields the
/// payload back.  Stated below the encoding's 32-bit length header: a
/// longer payload is written with a truncated header and decodes to a
/// shorter value.
pub fn roundtrip_bytes(value: &Vec<u8>) -> (r: Option<Vec<u8>>)
    requires
        value@.len() <= u32::MAX as int,
    ensures
        r matches Some(m) && m@ == value@,
{
    let encoded = encode_bytes(value);
    decode_bytes(&encoded)
}

} // verus!
