//! MessagePack encoding of the plain values that travel as call arguments.
//!
//! The encoding itself is done by `rmp_serde` (see `msgpack`); this module
//! offers the `Wire` trait through which argument lists add and decode values.
use vstd::prelude::*;
use crate::msgpack::{
    bool_of_msgpack, bool_read_of_msgpack, i64_of_msgpack, is_int_marker, is_text_marker,
    msgpack_of_bool, msgpack_of_i64, msgpack_of_str, msgpack_of_u64, read_bool, read_i64,
    read_string, read_u64, str_of_msgpack, u64_of_msgpack, write_bool, write_i64,
    write_str, write_u64,
};
use crate::protocol::Error;
use vstd::utf8::encode_utf8;

verus! {

/// The message an argument that could not be encoded is reported with.
pub open spec fn encode_failure_text() -> Seq<char> {
    "failed to encode argument"@
}

fn encode_failure() -> (r: Error)
    ensures
        r.message@ == encode_failure_text(),
{
    Error::new("failed to encode argument")
}

/// The UTF-8 form of a string takes at most four bytes per character.
proof fn lemma_utf8_len_bound(s: Seq<char>)
    ensures
        encode_utf8(s).len() <= 4 * s.len(),
    decreases s.len(),
{
    if s.len() > 0 {
        lemma_utf8_len_bound(s.drop_first());
    }
}

/// A value that can travel as one call argument.
pub trait Wire: View + Sized {
    /// The bytes that stand for the value on the wire.
    spec fn encoded(v: Self::V) -> Seq<u8>;

    /// The value that the given bytes stand for, if any.
    spec fn decoded(bytes: Seq<u8>) -> Option<Self::V>;

    /// The message a failure to decode the given bytes is reported with.
    spec fn decode_error(bytes: Seq<u8>) -> Seq<char>;

    /// Whether the value is read back from its encoding unchanged.
    spec fn fits(v: Self::V) -> bool;

    /// What bytes must look like for a value of this type to be read from
    /// them at all.
    spec fn accepts(bytes: Seq<u8>) -> bool;

    /// Encodes the value; encoding never fails.
    fn encode(&self) -> (r: Result<Vec<u8>, Error>)
        ensures
            r is Ok,
            r matches Ok(b) ==> b@ == Self::encoded(self@),
            r matches Ok(b) ==> (Self::fits(self@) ==> Self::decoded(b@) == Some(self@)),
    ;

    fn decode(bytes: &Vec<u8>) -> (r: Result<Self, Error>)
        ensures
            r is Ok <==> Self::decoded(bytes@) is Some,
            r matches Ok(v) ==> Self::decoded(bytes@) == Some(v@),
            r matches Err(e) ==> e.message@ == Self::decode_error(bytes@),
            r is Ok ==> Self::accepts(bytes@),
    ;
}

} // verus!

verus! {

impl Wire for i64 {
    open spec fn encoded(v: i64) -> Seq<u8> {
        msgpack_of_i64(v)
    }

    open spec fn decoded(bytes: Seq<u8>) -> Option<i64> {
        match i64_of_msgpack(bytes) {
            Ok(v) => Some(v),
            Err(_) => None,
        }
    }

    open spec fn decode_error(bytes: Seq<u8>) -> Seq<char> {
        match i64_of_msgpack(bytes) {
            Ok(_) => Seq::empty(),
            Err(t) => t,
        }
    }

    open spec fn fits(v: i64) -> bool {
        true
    }

    open spec fn accepts(bytes: Seq<u8>) -> bool {
        bytes.len() > 0 && is_int_marker(bytes[0])
    }

    fn encode(&self) -> (r: Result<Vec<u8>, Error>) {
        match write_i64(*self) {
            Ok(b) => Ok(b),
            Err(_) => Err(encode_failure()),
        }
    }

    fn decode(bytes: &Vec<u8>) -> (r: Result<i64, Error>) {
        match read_i64(bytes) {
            Ok(v) => Ok(v),
            Err(t) => Err(Error { message: t }),
        }
    }
}

impl Wire for u64 {
    open spec fn encoded(v: u64) -> Seq<u8> {
        msgpack_of_u64(v)
    }

    open spec fn decoded(bytes: Seq<u8>) -> Option<u64> {
        match u64_of_msgpack(bytes) {
            Ok(v) => Some(v),
            Err(_) => None,
        }
    }

    open spec fn decode_error(bytes: Seq<u8>) -> Seq<char> {
        match u64_of_msgpack(bytes) {
            Ok(_) => Seq::empty(),
            Err(t) => t,
        }
    }

    open spec fn fits(v: u64) -> bool {
        true
    }

    open spec fn accepts(bytes: Seq<u8>) -> bool {
        bytes.len() > 0 && is_int_marker(bytes[0])
    }

    fn encode(&self) -> (r: Result<Vec<u8>, Error>) {
        match write_u64(*self) {
            Ok(b) => Ok(b),
            Err(_) => Err(encode_failure()),
        }
    }

    fn decode(bytes: &Vec<u8>) -> (r: Result<u64, Error>) {
        match read_u64(bytes) {
            Ok(v) => Ok(v),
            Err(t) => Err(Error { message: t }),
        }
    }
}

impl Wire for bool {
    open spec fn encoded(v: bool) -> Seq<u8> {
        msgpack_of_bool(v)
    }

    open spec fn decoded(bytes: Seq<u8>) -> Option<bool> {
        bool_of_msgpack(bytes)
    }

    open spec fn decode_error(bytes: Seq<u8>) -> Seq<char> {
        match bool_read_of_msgpack(bytes) {
            Ok(_) => Seq::empty(),
            Err(t) => t,
        }
    }

    open spec fn fits(v: bool) -> bool {
        true
    }

    open spec fn accepts(bytes: Seq<u8>) -> bool {
        bytes.len() > 0 && (bytes[0] == 0xc2 || bytes[0] == 0xc3)
    }

    fn encode(&self) -> (r: Result<Vec<u8>, Error>) {
        match write_bool(*self) {
            Ok(b) => Ok(b),
            Err(_) => Err(encode_failure()),
        }
    }

    fn decode(bytes: &Vec<u8>) -> (r: Result<bool, Error>) {
        match read_bool(bytes) {
            Ok(v) => Ok(v),
            Err(t) => Err(Error { message: t }),
        }
    }
}

impl Wire for String {
    open spec fn encoded(v: Seq<char>) -> Seq<u8> {
        msgpack_of_str(v)
    }

    open spec fn decoded(bytes: Seq<u8>) -> Option<Seq<char>> {
        match str_of_msgpack(bytes) {
            Ok(v) => Some(v),
            Err(_) => None,
        }
    }

    open spec fn decode_error(bytes: Seq<u8>) -> Seq<char> {
        match str_of_msgpack(bytes) {
            Ok(_) => Seq::empty(),
            Err(t) => t,
        }
    }

    /// Strings below 2^30 characters: their UTF-8 length is below 2^32.
    open spec fn fits(v: Seq<char>) -> bool {
        v.len() < 0x4000_0000
    }

    open spec fn accepts(bytes: Seq<u8>) -> bool {
        bytes.len() > 0 && is_text_marker(bytes[0])
    }

    fn encode(&self) -> (r: Result<Vec<u8>, Error>) {
        proof {
            lemma_utf8_len_bound(self@);
        }
        match write_str(self.as_str()) {
            Ok(b) => Ok(b),
            Err(_) => Err(encode_failure()),
        }
    }

    fn decode(bytes: &Vec<u8>) -> (r: Result<String, Error>) {
        match read_string(bytes) {
            Ok(v) => Ok(v),
            Err(t) => Err(Error { message: t }),
        }
    }
}

} // verus!
