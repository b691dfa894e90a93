//! Text that crosses the driver boundary: NUL-terminated buffers coming back,
//! and strings going out that must not hold a NUL byte.

use vstd::prelude::*;
use vstd::utf8::{
    decode_first_scalar,
    decode_utf8,
    is_leading_byte_width_1,
    is_leading_byte_width_2,
    is_leading_byte_width_3,
    length_of_first_scalar,
    pop_first_scalar,
    valid_utf8,
};
use vstd::string::StringSliceAdditionalSpecFns;
use crate::error::DaqmxError;

verus! {

/// `n` is the position of the first NUL in `b`, or `b.len()` when there is none.
pub open spec fn is_first_nul(b: Seq<i8>, n: int) -> bool {
    &&& 0 <= n <= b.len()
    &&& forall|i: int| 0 <= i < n ==> b[i] != 0
    &&& (n == b.len() || b[n] == 0)
}

/// Where the text in a NUL-terminated buffer ends.
pub open spec fn text_end(b: Seq<i8>) -> int {
    choose|n: int| is_first_nul(b, n)
}

/// The bytes of the text in a NUL-terminated buffer: everything before the first NUL.
pub open spec fn c_text(b: Seq<i8>) -> Seq<u8> {
    b.take(text_end(b)).map_values(|x: i8| x as u8)
}

/// `r` is what decoding the text of NUL-terminated buffer `b` gives: its
/// characters when they are valid UTF-8, `Utf8Error` otherwise.
pub open spec fn is_text_of(b: Seq<i8>, r: Result<String, DaqmxError>) -> bool {
    match r {
        Ok(s) => valid_utf8(c_text(b)) && s@ == decode_utf8(c_text(b)),
        Err(e) => !valid_utf8(c_text(b)) && e == DaqmxError::Utf8Error,
    }
}

/// The bytes of a string property's text: the whole buffer, less the
/// terminating NUL when it ends in one.
pub open spec fn property_bytes(b: Seq<i8>) -> Seq<u8> {
    let t = if b.len() > 0 && b.last() == 0 {
        b.drop_last()
    } else {
        b
    };
    t.map_values(|x: i8| x as u8)
}

/// `r` is what decoding the string-property buffer `b` gives: the characters
/// of `property_bytes(b)` when they are valid UTF-8, `Utf8Error` otherwise.
pub open spec fn is_property_text_of(b: Seq<i8>, r: Result<String, DaqmxError>) -> bool {
    match r {
        Ok(s) => valid_utf8(property_bytes(b)) && s@ == decode_utf8(property_bytes(b)),
        Err(e) => !valid_utf8(property_bytes(b)) && e == DaqmxError::Utf8Error,
    }
}

/// `n` is the position of the first NUL byte in `b`.
pub open spec fn is_first_nul_byte(b: Seq<u8>, n: int) -> bool {
    &&& 0 <= n < b.len()
    &&& b[n] == 0
    &&& forall|i: int| 0 <= i < n ==> b[i] != 0
}

proof fn lemma_text_end(b: Seq<i8>, n: int)
    requires
        is_first_nul(b, n),
    ensures
        text_end(b) == n,
{
    let m = text_end(b);
    assert(is_first_nul(b, m));
    if m < n {
        assert(b[m] != 0);
    } else if n < m {
        assert(b[n] != 0);
    }
}

/// Valid UTF-8 without a zero byte decodes to text without a NUL character,
/// and to no more characters than it has bytes.
proof fn lemma_decode_without_zero(bytes: Seq<u8>)
    requires
        valid_utf8(bytes),
        forall|i: int| 0 <= i < bytes.len() ==> bytes[i] != 0,
    ensures
        !decode_utf8(bytes).contains('\0'),
        decode_utf8(bytes).len() <= bytes.len(),
    decreases bytes.len(),
{
    if bytes.len() > 0 {
        let n = length_of_first_scalar(bytes);
        let rest = pop_first_scalar(bytes);
        assert(1 <= n <= bytes.len());
        assert(rest.len() == bytes.len() - n);
        assert forall|i: int| 0 <= i < rest.len() implies rest[i] != 0 by {
            assert(rest[i] == bytes[i + n]);
        }
        lemma_decode_without_zero(rest);
        let cp = decode_first_scalar(bytes);
        let b0 = bytes[0];
        if is_leading_byte_width_1(b0) {
            assert(b0 != 0);
            assert((b0 & 0x7f) == b0) by (bit_vector)
                requires
                    b0 <= 0x7f,
            ;
            assert(cp == b0 as u32);
        } else if is_leading_byte_width_2(b0) {
            let b1 = bytes[1];
            assert((((b0 & 0x1f) as u32) << 6) | ((b1 & 0x3f) as u32) <= 0x7ff) by (bit_vector);
            assert(0x80 <= cp <= 0x7ff);
        } else if is_leading_byte_width_3(b0) {
            let b1 = bytes[1];
            let b2 = bytes[2];
            assert((((b0 & 0x0f) as u32) << 12) | (((b1 & 0x3f) as u32) << 6) | ((b2 & 0x3f) as u32) <= 0xffff)
                by (bit_vector);
            assert(0x800 <= cp <= 0xffff);
        } else {
            assert(0x10000 <= cp <= 0x10ffff);
        }
        assert(0 < cp <= 0x10ffff && (cp < 0xD800 || 0xDFFF < cp));
        assert((cp as char) as u32 == cp);
        assert((cp as char) != '\0');
        let d = decode_utf8(bytes);
        assert(d == seq![cp as char] + decode_utf8(rest));
        if d.contains('\0') {
            let k = choose|k: int| 0 <= k < d.len() && d[k] == '\0';
            if k > 0 {
                assert(decode_utf8(rest)[k - 1] == '\0');
            }
        }
    }
}

/// The text of a NUL-terminated buffer holds no NUL, and is no longer than the buffer.
proof fn lemma_c_text_has_no_nul(b: Seq<i8>)
    requires
        valid_utf8(c_text(b)),
    ensures
        !decode_utf8(c_text(b)).contains('\0'),
        decode_utf8(c_text(b)).len() <= b.len(),
{
    lemma_first_nul_exists(b);
    let n = text_end(b);
    assert(is_first_nul(b, n));
    assert forall|i: int| 0 <= i < c_text(b).len() implies c_text(b)[i] != 0 by {
        let x = b[i];
        assert(x != 0);
        assert(x != 0 ==> (x as u8) != 0) by (bit_vector);
        assert(c_text(b)[i] == x as u8);
    }
    lemma_decode_without_zero(c_text(b));
}

/// Every buffer has a first NUL position (possibly its end).
proof fn lemma_first_nul_exists(b: Seq<i8>)
    ensures
        exists|m: int| is_first_nul(b, m),
    decreases b.len(),
{
    if b.len() == 0 {
        assert(is_first_nul(b, 0));
    } else if b[0] == 0 {
        assert(is_first_nul(b, 0));
    } else {
        let t = b.drop_first();
        lemma_first_nul_exists(t);
        let m = choose|m: int| is_first_nul(t, m);
        assert forall|i: int| 0 <= i < m + 1 implies b[i] != 0 by {
            if i > 0 {
                assert(b[i] == t[i - 1]);
            }
        }
        if m < t.len() {
            assert(b[m + 1] == t[m]);
        }
        assert(is_first_nul(b, m + 1));
    }
}

/// Relies on `String::from_utf8`: it succeeds exactly on valid UTF-8, and the
/// string then holds the decoded characters.
#[verifier::external_body]
fn string_from_utf8(bytes: Vec<u8>) -> (r: Option<String>)
    ensures
        r is Some <==> valid_utf8(bytes@),
        r matches Some(s) ==> s@ == decode_utf8(bytes@),
{
    String::from_utf8(bytes).ok()
}

/// Decodes a byte buffer as UTF-8 text.
pub fn decode_text(bytes: Vec<u8>) -> (r: Result<String, DaqmxError>)
    ensures
        r is Ok <==> valid_utf8(bytes@),
        r matches Ok(s) ==> s@ == decode_utf8(bytes@),
        r matches Err(e) ==> e == DaqmxError::Utf8Error,
{
    match string_from_utf8(bytes) {
        Some(s) => Ok(s),
        None => Err(DaqmxError::Utf8Error),
    }
}

/// Turns a NUL-terminated text buffer filled by the driver into a `String`.
///
/// The text ends at the first NUL, or at the end of the buffer when there is
/// none. Text that is not valid UTF-8 gives `Utf8Error`.
pub fn buffer_to_string(buffer: Vec<i8>) -> (r: Result<String, DaqmxError>)
    ensures
        is_text_of(buffer@, r),
        r matches Ok(s) ==> !s@.contains('\0') && s@.len() <= buffer@.len(),
{
    let mut bytes: Vec<u8> = Vec::new();
    let mut i: usize = 0;
    while i < buffer.len() && buffer[i] != 0
        invariant
            0 <= i <= buffer@.len(),
            forall|j: int| 0 <= j < i ==> buffer@[j] != 0,
            bytes@ == buffer@.take(i as int).map_values(|x: i8| x as u8),
        decreases buffer@.len() - i,
    {
        bytes.push(buffer[i] as u8);
        i = i + 1;
        assert(bytes@ =~= buffer@.take(i as int).map_values(|x: i8| x as u8));
    }
    proof {
        lemma_text_end(buffer@, i as int);
        if valid_utf8(c_text(buffer@)) {
            lemma_c_text_has_no_nul(buffer@);
        }
    }
    decode_text(bytes)
}

/// `s` holds a NUL byte, so it cannot be handed to the driver as a C string.
pub open spec fn has_nul(s: &str) -> bool {
    s.spec_bytes().contains(0u8)
}

/// Turns a string-property buffer filled by the driver into a `String`: the
/// terminating NUL is dropped and everything before it is decoded.
pub fn property_buffer_to_string(buffer: Vec<i8>) -> (r: Result<String, DaqmxError>)
    ensures
        is_property_text_of(buffer@, r),
{
    let n: usize = if buffer.len() > 0 && buffer[buffer.len() - 1] == 0 { buffer.len() - 1 } else { buffer.len() };
    let mut bytes: Vec<u8> = Vec::new();
    let mut i: usize = 0;
    while i < n
        invariant
            n <= buffer@.len(),
            0 <= i <= n,
            bytes@ == buffer@.take(i as int).map_values(|x: i8| x as u8),
        decreases n - i,
    {
        bytes.push(buffer[i] as u8);
        i = i + 1;
        assert(bytes@ =~= buffer@.take(i as int).map_values(|x: i8| x as u8));
    }
    assert(bytes@ =~= property_bytes(buffer@));
    decode_text(bytes)
}

/// Checks that `s` can be handed to the driver as a C string: it must not hold
/// a NUL byte. On failure the error gives the position of the first NUL byte.
pub fn check_c_string(s: &str) -> (r: Result<(), DaqmxError>)
    ensures
        r is Ok <==> !has_nul(s),
        r matches Err(e) ==> (e matches DaqmxError::CStringError(n) && is_first_nul_byte(
            s.spec_bytes(),
            n as int,
        )),
{
    let bytes = s.as_bytes();
    let mut i: usize = 0;
    while i < bytes.len()
        invariant
            0 <= i <= bytes@.len(),
            bytes@ == s.spec_bytes(),
            forall|j: int| 0 <= j < i ==> bytes@[j] != 0,
        decreases bytes@.len() - i,
    {
        if bytes[i] == 0 {
            return Err(DaqmxError::CStringError(i));
        }
        i = i + 1;
    }
    assert(!bytes@.contains(0u8)) by {
        if bytes@.contains(0u8) {
            let k = choose|k: int| 0 <= k < bytes@.len() && bytes@[k] == 0u8;
            assert(bytes@[k] != 0);
        }
    }
    Ok(())
}

} // verus!
