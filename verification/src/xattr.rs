//! How a paste's metadata is stored in extended attributes of its file:
//! integers as eight big-endian bytes, text as UTF-8.
use vstd::prelude::*;
use vstd::utf8::*;
use crate::error::PasteError;
use crate::text::{Utf8Failure, utf8_decode, utf8_error_len};

verus! {

/// Name of the attribute holding the creation time.
pub const XATTR_CREATED: &'static str = "user.pastor.created";

/// Name of the attribute holding the expiry time.
pub const XATTR_EXPIRES: &'static str = "user.pastor.expires";

/// Name of the attribute holding the uploader's token.
pub const XATTR_TOKEN: &'static str = "user.pastor.token";

/// Name of the attribute holding the MIME type.
pub const XATTR_MIME: &'static str = "user.pastor.mime";

/// The eight big-endian bytes of `v` in two's complement.
pub open spec fn i64_be(v: i64) -> Seq<u8> {
    let u = v as u64;
    seq![
        (u >> 56u64) as u8,
        (u >> 48u64) as u8,
        (u >> 40u64) as u8,
        (u >> 32u64) as u8,
        (u >> 24u64) as u8,
        (u >> 16u64) as u8,
        (u >> 8u64) as u8,
        u as u8,
    ]
}

/// The integer whose eight big-endian bytes are `b`.
pub open spec fn i64_from_be(b: Seq<u8>) -> i64 {
    (((b[0] as u64) << 56u64) | ((b[1] as u64) << 48u64) | ((b[2] as u64) << 40u64) | ((
    b[3] as u64) << 32u64) | ((b[4] as u64) << 24u64) | ((b[5] as u64) << 16u64) | ((
    b[6] as u64) << 8u64) | (b[7] as u64)) as i64
}

/// The result of reading an integer attribute called `name`, given what
/// reading the raw attribute gave: the read's own error, `XattrNotFound`
/// when the attribute is absent, `ParseError` with the bytes when they are
/// not exactly eight, and otherwise the big-endian integer.
pub open spec fn read_i64(read: Result<Option<Vec<u8>>, PasteError>, name: &'static str) -> Result<i64, PasteError> {
    match read {
        Err(e) => Err(e),
        Ok(None) => Err(PasteError::XattrNotFound(name)),
        Ok(Some(b)) => if b@.len() == 8 {
            Ok(i64_from_be(b@))
        } else {
            Err(PasteError::ParseError(b))
        },
    }
}

/// Whether reading a text attribute fails.
pub open spec fn read_str_fails(read: Result<Option<Vec<u8>>, PasteError>) -> bool {
    match read {
        Ok(Some(b)) => !valid_utf8(b@),
        _ => true,
    }
}

/// The text a successful read of a text attribute gives.
pub open spec fn read_str_text(read: Result<Option<Vec<u8>>, PasteError>) -> Seq<char> {
    match read {
        Ok(Some(b)) => decode_utf8(b@),
        _ => Seq::empty(),
    }
}

/// Whether `e` is the error that a failed read of the text attribute `name`
/// gives: the read's own error, `XattrNotFound`, or `StrParseError` locating
/// the end of the longest valid UTF-8 prefix and carrying the length std
/// reports for the invalid sequence there.
pub open spec fn read_str_error(read: Result<Option<Vec<u8>>, PasteError>, name: &'static str, e: PasteError) -> bool {
    match read {
        Err(x) => e == x,
        Ok(None) => e == PasteError::XattrNotFound(name),
        Ok(Some(b)) => match e {
            PasteError::StrParseError(u) => {
                &&& partial_valid_utf8(b@, u.valid_up_to as int)
                &&& forall|j: int| u.valid_up_to < j <= b@.len() ==> !partial_valid_utf8(b@, j)
                &&& u.error_len == utf8_error_len(b@)
                &&& u.error_len matches Some(n) ==> 0 < n && u.valid_up_to + n <= b@.len()
                &&& u.error_len is None ==> 1 <= b@.len() - u.valid_up_to <= 3
            },
            _ => false,
        },
    }
}

/// The bytes that store `v`.
pub fn encode_i64(v: i64) -> (r: Vec<u8>)
    ensures
        r@ == i64_be(v),
{
    let u = v as u64;
    let r = vec![
        (u >> 56u64) as u8,
        (u >> 48u64) as u8,
        (u >> 40u64) as u8,
        (u >> 32u64) as u8,
        (u >> 24u64) as u8,
        (u >> 16u64) as u8,
        (u >> 8u64) as u8,
        u as u8,
    ];
    assert(r@ == i64_be(v));
    r
}

/// The bytes that store `s`.
pub fn encode_str(s: &str) -> (r: Vec<u8>)
    ensures
        r@ == encode_utf8(s@),
{
    crate::paths::copy_range(s.as_bytes(), 0, s.as_bytes().len())
}

/// Reads an integer attribute (see `read_i64`).
pub fn decode_i64(read: Result<Option<Vec<u8>>, PasteError>, name: &'static str) -> (r: Result<i64, PasteError>)
    ensures
        r == read_i64(read, name),
{
    match read {
        Err(e) => Err(e),
        Ok(None) => Err(PasteError::XattrNotFound(name)),
        Ok(Some(b)) => {
            if b.len() == 8 {
                let u: u64 = ((b[0] as u64) << 56u64) | ((b[1] as u64) << 48u64) | ((b[2] as u64) << 40u64)
                    | ((b[3] as u64) << 32u64) | ((b[4] as u64) << 24u64) | ((b[5] as u64) << 16u64)
                    | ((b[6] as u64) << 8u64) | (b[7] as u64);
                Ok(u as i64)
            } else {
                Err(PasteError::ParseError(b))
            }
        },
    }
}

/// Reads a text attribute (see `read_str_fails`, `read_str_text` and
/// `read_str_error`).
pub fn decode_str(read: Result<Option<Vec<u8>>, PasteError>, name: &'static str) -> (r: Result<String, PasteError>)
    ensures
        r is Ok <==> !read_str_fails(read),
        r matches Ok(s) ==> s@ == read_str_text(read),
        r matches Err(e) ==> read_str_error(read, name, e),
{
    match read {
        Err(e) => Err(e),
        Ok(None) => Err(PasteError::XattrNotFound(name)),
        Ok(Some(b)) => match utf8_decode(b.as_slice()) {
            Ok(s) => Ok(s),
            Err(u) => Err(PasteError::StrParseError(u)),
        },
    }
}

/// An integer survives being stored: its eight bytes read back as itself.
pub proof fn lemma_i64_round_trip(v: i64)
    ensures
        i64_be(v).len() == 8,
        i64_from_be(i64_be(v)) == v,
{
    let u = v as u64;
    let b = i64_be(v);
    let b0 = (u >> 56u64) as u8;
    let b1 = (u >> 48u64) as u8;
    let b2 = (u >> 40u64) as u8;
    let b3 = (u >> 32u64) as u8;
    let b4 = (u >> 24u64) as u8;
    let b5 = (u >> 16u64) as u8;
    let b6 = (u >> 8u64) as u8;
    let b7 = u as u8;
    assert(b[0] == b0 && b[1] == b1 && b[2] == b2 && b[3] == b3 && b[4] == b4 && b[5] == b5
        && b[6] == b6 && b[7] == b7);
    assert((((b0 as u64) << 56u64) | ((b1 as u64) << 48u64) | ((b2 as u64) << 40u64) | ((
    b3 as u64) << 32u64) | ((b4 as u64) << 24u64) | ((b5 as u64) << 16u64) | ((b6 as u64)
        << 8u64) | (b7 as u64)) as i64 == v) by (bit_vector)
        requires
            u == v as u64,
            b0 == (u >> 56u64) as u8,
            b1 == (u >> 48u64) as u8,
            b2 == (u >> 40u64) as u8,
            b3 == (u >> 32u64) as u8,
            b4 == (u >> 24u64) as u8,
            b5 == (u >> 16u64) as u8,
            b6 == (u >> 8u64) as u8,
            b7 == u as u8,
    ;
}

/// An integer is stored as its eight bytes in big-endian order: byte `k`
/// holds the bits of weight `256^(7-k)` of its 64-bit two's-complement form.
pub proof fn law_i64_be_is_big_endian(v: i64)
    ensures
        i64_be(v).len() == 8,
        i64_be(v)[0] == ((v as u64) / 0x0100_0000_0000_0000u64) as u8,
        i64_be(v)[1] == (((v as u64) / 0x0001_0000_0000_0000u64) % 256) as u8,
        i64_be(v)[2] == (((v as u64) / 0x0000_0100_0000_0000u64) % 256) as u8,
        i64_be(v)[3] == (((v as u64) / 0x0000_0001_0000_0000u64) % 256) as u8,
        i64_be(v)[4] == (((v as u64) / 0x0000_0000_0100_0000u64) % 256) as u8,
        i64_be(v)[5] == (((v as u64) / 0x0000_0000_0001_0000u64) % 256) as u8,
        i64_be(v)[6] == (((v as u64) / 0x0000_0000_0000_0100u64) % 256) as u8,
        i64_be(v)[7] == ((v as u64) % 256) as u8,
{
    let u = v as u64;
    assert(((u >> 56u64) as u8 == (u / 0x0100_0000_0000_0000u64) as u8)
        && ((u >> 48u64) as u8 == ((u / 0x0001_0000_0000_0000u64) % 256) as u8)
        && ((u >> 40u64) as u8 == ((u / 0x0000_0100_0000_0000u64) % 256) as u8)
        && ((u >> 32u64) as u8 == ((u / 0x0000_0001_0000_0000u64) % 256) as u8)
        && ((u >> 24u64) as u8 == ((u / 0x0000_0000_0100_0000u64) % 256) as u8)
        && ((u >> 16u64) as u8 == ((u / 0x0000_0000_0001_0000u64) % 256) as u8)
        && ((u >> 8u64) as u8 == ((u / 0x0000_0000_0000_0100u64) % 256) as u8)
        && (u as u8 == (u % 256) as u8)) by (bit_vector);
}

/// Text survives being stored: its UTF-8 bytes read back as itself.
pub proof fn lemma_str_round_trip(s: Seq<char>)
    ensures
        valid_utf8(encode_utf8(s)),
        decode_utf8(encode_utf8(s)) == s,
{
    encode_utf8_valid_utf8(s);
    encode_utf8_decode_utf8(s);
}

} // verus!
