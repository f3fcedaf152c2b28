//! Trusted interface to `rmp_serde`: what the library relies on about the
//! MessagePack bytes written and read for plain values.
use vstd::prelude::*;
use vstd::utf8::encode_utf8;

verus! {

/// The `n` low bytes of `v`, most significant first.
pub open spec fn be_bytes(v: nat, n: nat) -> Seq<u8>
    decreases n,
{
    if n == 0 {
        Seq::empty()
    } else {
        be_bytes(v / 256, (n - 1) as nat).push((v % 256) as u8)
    }
}

/// The MessagePack form of a non-negative integer below 2^64: a positive
/// fixint, or the `uint 8/16/32/64` marker followed by the value.
pub open spec fn msgpack_of_uint(v: nat) -> Seq<u8> {
    if v < 0x80 {
        seq![v as u8]
    } else if v < 0x100 {
        seq![0xccu8] + be_bytes(v, 1)
    } else if v < 0x1_0000 {
        seq![0xcdu8] + be_bytes(v, 2)
    } else if v < 0x1_0000_0000 {
        seq![0xceu8] + be_bytes(v, 4)
    } else {
        seq![0xcfu8] + be_bytes(v, 8)
    }
}

/// The MessagePack form of a signed integer: the smallest of negative
/// fixint and `int 8/16/32/64` (two's complement) for a negative value, as
/// for an unsigned one otherwise.
pub open spec fn msgpack_of_i64(v: i64) -> Seq<u8> {
    if v >= 0 {
        msgpack_of_uint(v as nat)
    } else if v >= -32 {
        seq![(v + 0x100) as u8]
    } else if v >= -0x80 {
        seq![0xd0u8] + be_bytes((v + 0x100) as nat, 1)
    } else if v >= -0x8000 {
        seq![0xd1u8] + be_bytes((v + 0x1_0000) as nat, 2)
    } else if v >= -0x8000_0000 {
        seq![0xd2u8] + be_bytes((v + 0x1_0000_0000) as nat, 4)
    } else {
        seq![0xd3u8] + be_bytes((v + 0x1_0000_0000_0000_0000) as nat, 8)
    }
}

/// The MessagePack form of an unsigned integer.
pub open spec fn msgpack_of_u64(v: u64) -> Seq<u8> {
    msgpack_of_uint(v as nat)
}

/// Whether `b` is the marker of an integer: a fixint or `uint`/`int`.
pub open spec fn is_int_marker(b: u8) -> bool {
    b <= 0x7f || b >= 0xe0 || (0xcc <= b && b <= 0xd3)
}

/// Whether `b` is the marker of a string or of binary data.
pub open spec fn is_text_marker(b: u8) -> bool {
    (0xa0 <= b && b <= 0xbf) || (0xc4 <= b && b <= 0xc6) || (0xd9 <= b && b <= 0xdb)
}

/// What `rmp_serde` makes of the given bytes when asked for a signed
/// integer: the integer, or the text of the error it fails with.
pub uninterp spec fn i64_of_msgpack(bytes: Seq<u8>) -> Result<i64, Seq<char>>;

/// What `rmp_serde` makes of the given bytes when asked for an unsigned
/// integer: the integer, or the text of the error it fails with.
pub uninterp spec fn u64_of_msgpack(bytes: Seq<u8>) -> Result<u64, Seq<char>>;

/// What `rmp_serde` makes of the given bytes when asked for a boolean: the
/// boolean, or the text of the error it fails with.
pub uninterp spec fn bool_read_of_msgpack(bytes: Seq<u8>) -> Result<bool, Seq<char>>;

/// The MessagePack form of a boolean: one byte, `0xc3` or `0xc2`.
pub open spec fn msgpack_of_bool(v: bool) -> Seq<u8> {
    if v {
        seq![0xc3u8]
    } else {
        seq![0xc2u8]
    }
}

/// The boolean read from bytes: their first byte must be `0xc3` or `0xc2`;
/// what follows it is not read.
pub open spec fn bool_of_msgpack(bytes: Seq<u8>) -> Option<bool> {
    if bytes.len() > 0 && bytes[0] == 0xc3 {
        Some(true)
    } else if bytes.len() > 0 && bytes[0] == 0xc2 {
        Some(false)
    } else {
        None
    }
}

/// The header of a string of `n` bytes: a fixstr marker, or `str 8/16/32`
/// followed by the length.
pub open spec fn str_header(n: nat) -> Seq<u8> {
    if n < 32 {
        seq![(0xa0 + n) as u8]
    } else if n < 0x100 {
        seq![0xd9u8] + be_bytes(n, 1)
    } else if n < 0x1_0000 {
        seq![0xdau8] + be_bytes(n, 2)
    } else {
        seq![0xdbu8] + be_bytes(n, 4)
    }
}

/// The MessagePack form of a string: the header of its UTF-8 length, taken
/// modulo 2^32 as the writer casts it to 32 bits, then its UTF-8 bytes.
pub open spec fn msgpack_of_str(s: Seq<char>) -> Seq<u8> {
    str_header(encode_utf8(s).len() % 0x1_0000_0000) + encode_utf8(s)
}

/// Whether a string's UTF-8 form is short enough for its length to be
/// written exactly.
pub open spec fn str_fits(s: Seq<char>) -> bool {
    encode_utf8(s).len() < 0x1_0000_0000
}

/// What `rmp_serde` makes of the given bytes when asked for a string: its
/// characters, or the text of the error it fails with.
pub uninterp spec fn str_of_msgpack(bytes: Seq<u8>) -> Result<Seq<char>, Seq<char>>;

/// Calls `rmp_serde::encode::write_named` on a signed integer, writing into a
/// fresh `Vec` (the serializer configured with struct maps); a failure would
/// be handed back as the `Display` of its error.
/// Claims: it succeeds (its only failure is an error of the writer, and a
/// `Vec` never reports one); the buffer holds `msgpack_of_i64(v)`, as
/// `rmp::encode::write_sint` picks the form; and `rmp_serde` reads those
/// bytes back as `v` (the crate's round-trip tests check this of integers).
#[verifier::external_body]
pub(crate) fn write_i64(v: i64) -> (r: Result<Vec<u8>, String>)
    ensures
        r is Ok,
        r matches Ok(b) ==> b@ == msgpack_of_i64(v) && (i64_of_msgpack(b@) matches Ok(w) && w == v),
{
    let mut buf: Vec<u8> = Vec::new();
    match rmp_serde::encode::write_named(&mut buf, &v) {
        Ok(()) => Ok(buf),
        Err(e) => Err(e.to_string()),
    }
}

/// Calls `rmp_serde::from_slice::<i64>`, and on failure the `Display` of
/// its error.
/// Claims: the outcome is `i64_of_msgpack` of the bytes; it succeeds only on
/// bytes that start with an integer marker (the integer visitor refuses
/// every other kind of value).
#[verifier::external_body]
pub(crate) fn read_i64(bytes: &Vec<u8>) -> (r: Result<i64, String>)
    ensures
        r matches Ok(v) ==> (i64_of_msgpack(bytes@) matches Ok(w) && w == v),
        r matches Err(t) ==> (i64_of_msgpack(bytes@) matches Err(w) && w == t@),
        r is Ok ==> bytes@.len() > 0 && is_int_marker(bytes@[0]),
{
    match rmp_serde::from_slice::<i64>(bytes.as_slice()) {
        Ok(v) => Ok(v),
        Err(e) => Err(e.to_string()),
    }
}

/// Calls `rmp_serde::encode::write_named` on an unsigned integer, writing
/// into a fresh `Vec`; a failure would be handed back as its text.
/// Claims: it succeeds; the buffer holds `msgpack_of_u64(v)`, as
/// `rmp::encode::write_uint` picks the form; and `rmp_serde` reads it back as
/// `v`.
#[verifier::external_body]
pub(crate) fn write_u64(v: u64) -> (r: Result<Vec<u8>, String>)
    ensures
        r is Ok,
        r matches Ok(b) ==> b@ == msgpack_of_u64(v) && (u64_of_msgpack(b@) matches Ok(w) && w == v),
{
    let mut buf: Vec<u8> = Vec::new();
    match rmp_serde::encode::write_named(&mut buf, &v) {
        Ok(()) => Ok(buf),
        Err(e) => Err(e.to_string()),
    }
}

/// Calls `rmp_serde::from_slice::<u64>`, and on failure the `Display` of
/// its error.
/// Claims: the outcome is `u64_of_msgpack` of the bytes; it succeeds only on
/// bytes that start with an integer marker.
#[verifier::external_body]
pub(crate) fn read_u64(bytes: &Vec<u8>) -> (r: Result<u64, String>)
    ensures
        r matches Ok(v) ==> (u64_of_msgpack(bytes@) matches Ok(w) && w == v),
        r matches Err(t) ==> (u64_of_msgpack(bytes@) matches Err(w) && w == t@),
        r is Ok ==> bytes@.len() > 0 && is_int_marker(bytes@[0]),
{
    match rmp_serde::from_slice::<u64>(bytes.as_slice()) {
        Ok(v) => Ok(v),
        Err(e) => Err(e.to_string()),
    }
}

/// Calls `rmp_serde::encode::write_named` on a boolean, writing into a
/// fresh `Vec`; a failure would be handed back as its text.
/// Claims: it succeeds, and the buffer holds the one byte
/// `msgpack_of_bool(v)` (`rmp::encode::write_bool`).
#[verifier::external_body]
pub(crate) fn write_bool(v: bool) -> (r: Result<Vec<u8>, String>)
    ensures
        r is Ok,
        r matches Ok(b) ==> b@ == msgpack_of_bool(v),
{
    let mut buf: Vec<u8> = Vec::new();
    match rmp_serde::encode::write_named(&mut buf, &v) {
        Ok(()) => Ok(buf),
        Err(e) => Err(e.to_string()),
    }
}

/// Calls `rmp_serde::from_slice::<bool>`, and on failure the `Display` of
/// its error.
/// Claims: it reads the first byte as a marker and succeeds exactly on the
/// two boolean markers (`bool_of_msgpack`), returning that value; the
/// outcome is `bool_read_of_msgpack` of the bytes.
#[verifier::external_body]
pub(crate) fn read_bool(bytes: &Vec<u8>) -> (r: Result<bool, String>)
    ensures
        r is Ok <==> bool_of_msgpack(bytes@) is Some,
        r matches Ok(v) ==> bool_of_msgpack(bytes@) == Some(v),
        r matches Ok(v) ==> (bool_read_of_msgpack(bytes@) matches Ok(w) && w == v),
        r matches Err(t) ==> (bool_read_of_msgpack(bytes@) matches Err(w) && w == t@),
{
    match rmp_serde::from_slice::<bool>(bytes.as_slice()) {
        Ok(v) => Ok(v),
        Err(e) => Err(e.to_string()),
    }
}

/// Calls `rmp_serde::encode::write_named` on a string slice, writing into a
/// fresh `Vec`; a failure would be handed back as its text.
/// Claims: it succeeds; the buffer holds `msgpack_of_str(s@)`, the header
/// `rmp::encode::write_str` writes for the UTF-8 length cast to 32 bits,
/// then the bytes; and when that length is below 2^32 `rmp_serde` reads the
/// buffer back as the same characters.
#[verifier::external_body]
pub(crate) fn write_str(s: &str) -> (r: Result<Vec<u8>, String>)
    ensures
        r is Ok,
        r matches Ok(b) ==> b@ == msgpack_of_str(s@),
        r matches Ok(b) ==> (str_fits(s@) ==> (str_of_msgpack(b@) matches Ok(w) && w == s@)),
{
    let mut buf: Vec<u8> = Vec::new();
    match rmp_serde::encode::write_named(&mut buf, s) {
        Ok(()) => Ok(buf),
        Err(e) => Err(e.to_string()),
    }
}

/// Calls `rmp_serde::from_slice::<String>`, and on failure the `Display`
/// of its error.
/// Claims: the outcome is `str_of_msgpack` of the bytes; it succeeds only on
/// bytes that start with a string or binary marker (the string visitor
/// refuses numbers, booleans, nil, arrays, maps and extensions).
#[verifier::external_body]
pub(crate) fn read_string(bytes: &Vec<u8>) -> (r: Result<String, String>)
    ensures
        r matches Ok(s) ==> (str_of_msgpack(bytes@) matches Ok(w) && w == s@),
        r matches Err(t) ==> (str_of_msgpack(bytes@) matches Err(w) && w == t@),
        r is Ok ==> bytes@.len() > 0 && is_text_marker(bytes@[0]),
{
    match rmp_serde::from_slice::<String>(bytes.as_slice()) {
        Ok(v) => Ok(v),
        Err(e) => Err(e.to_string()),
    }
}

} // verus!
