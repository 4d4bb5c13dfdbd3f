//! Charset conversion between the in-memory text body and its wire bytes.
//!
//! Utf-8 is specified exactly through the mathematical model of vstd
//! (`encode_utf8` / `decode_utf8`). The two single-byte charsets are
//! converted by the `encoding` crate; their translation tables are not
//! restated here — each direction is given a name, and the wrappers bind
//! the crate's calls to those names.

use encoding::Encoding;
use vstd::prelude::*;

verus! {

use vstd::string::StrSliceExecFns;
use vstd::utf8::{decode_utf8, encode_utf8, valid_utf8};

use crate::error::Error;
use crate::header::PaymentEncoding;

/// What the Windows-1251 table makes of a text, where every character of
/// it is representable.
pub uninterp spec fn win1251_encoded(s: Seq<char>) -> Option<Seq<u8>>;

/// What the Windows-1251 table makes of wire bytes, where every byte of
/// them is mapped.
pub uninterp spec fn win1251_decoded(b: Seq<u8>) -> Option<Seq<char>>;

/// The total Windows-1251 reading of wire bytes, unmapped bytes replaced
/// by a placeholder character.
pub uninterp spec fn win1251_decoded_lossy(b: Seq<u8>) -> Seq<char>;

/// What the KOI8-R table makes of a text, where every character of it is
/// representable.
pub uninterp spec fn koi8r_encoded(s: Seq<char>) -> Option<Seq<u8>>;

/// What the KOI8-R table makes of wire bytes, where every byte of them is
/// mapped.
pub uninterp spec fn koi8r_decoded(b: Seq<u8>) -> Option<Seq<char>>;

/// The total KOI8-R reading of wire bytes, unmapped bytes replaced by a
/// placeholder character.
pub uninterp spec fn koi8r_decoded_lossy(b: Seq<u8>) -> Seq<char>;

/// The total lossy Utf-8 reading of wire bytes, invalid sequences
/// replaced by a placeholder character.
pub uninterp spec fn utf8_decoded_lossy(b: Seq<u8>) -> Seq<char>;

/// Relies on `encoding::all::WINDOWS_1251.encode` with the strict trap:
/// the result is a function of the input text alone, and the call fails
/// exactly where some character has no Windows-1251 byte.
#[verifier::external_body]
fn win1251_encode(s: &str) -> (r: Option<Vec<u8>>)
    ensures
        match r {
            Some(v) => win1251_encoded(s@) == Some(v@),
            None => win1251_encoded(s@) is None,
        },
{
    encoding::all::WINDOWS_1251.encode(s, encoding::EncoderTrap::Strict).ok()
}

/// Relies on `encoding::all::WINDOWS_1251.decode` with the strict trap:
/// the result is a function of the input bytes alone, and the call fails
/// exactly where some byte is unmapped.
#[verifier::external_body]
fn win1251_decode(b: &[u8]) -> (r: Option<String>)
    ensures
        match r {
            Some(s) => win1251_decoded(b@) == Some(s@),
            None => win1251_decoded(b@) is None,
        },
{
    encoding::all::WINDOWS_1251.decode(b, encoding::DecoderTrap::Strict).ok()
}

/// Relies on `encoding::all::WINDOWS_1251.decode` with the replacement
/// trap, which substitutes a placeholder for unmapped bytes and therefore
/// never fails; where the strict reading succeeds the two agree.
#[verifier::external_body]
fn win1251_decode_lossy(b: &[u8]) -> (r: String)
    ensures
        r@ == win1251_decoded_lossy(b@),
        win1251_decoded(b@) matches Some(s) ==> r@ == s,
{
    match encoding::all::WINDOWS_1251.decode(b, encoding::DecoderTrap::Replace) {
        Ok(s) => s,
        Err(_) => String::new(),
    }
}

/// Relies on `encoding::all::KOI8_R.encode` with the strict trap: the
/// result is a function of the input text alone, and the call fails
/// exactly where some character has no KOI8-R byte.
#[verifier::external_body]
fn koi8r_encode(s: &str) -> (r: Option<Vec<u8>>)
    ensures
        match r {
            Some(v) => koi8r_encoded(s@) == Some(v@),
            None => koi8r_encoded(s@) is None,
        },
{
    encoding::all::KOI8_R.encode(s, encoding::EncoderTrap::Strict).ok()
}

/// Relies on `encoding::all::KOI8_R.decode` with the strict trap: the
/// result is a function of the input bytes alone, and the call fails
/// exactly where some byte is unmapped.
#[verifier::external_body]
fn koi8r_decode(b: &[u8]) -> (r: Option<String>)
    ensures
        match r {
            Some(s) => koi8r_decoded(b@) == Some(s@),
            None => koi8r_decoded(b@) is None,
        },
{
    encoding::all::KOI8_R.decode(b, encoding::DecoderTrap::Strict).ok()
}

/// Relies on `encoding::all::KOI8_R.decode` with the replacement trap,
/// which substitutes a placeholder for unmapped bytes and therefore never
/// fails; where the strict reading succeeds the two agree.
#[verifier::external_body]
fn koi8r_decode_lossy(b: &[u8]) -> (r: String)
    ensures
        r@ == koi8r_decoded_lossy(b@),
        koi8r_decoded(b@) matches Some(s) ==> r@ == s,
{
    match encoding::all::KOI8_R.decode(b, encoding::DecoderTrap::Replace) {
        Ok(s) => s,
        Err(_) => String::new(),
    }
}

/// Relies on `String::from_utf8`: it succeeds exactly on valid Utf-8 and
/// yields the decoded characters.
#[verifier::external_body]
fn utf8_decode(b: &[u8]) -> (r: Option<String>)
    ensures
        match r {
            Some(s) => valid_utf8(b@) && s@ == decode_utf8(b@),
            None => !valid_utf8(b@),
        },
{
    String::from_utf8(b.to_vec()).ok()
}

/// Relies on `String::from_utf8_lossy`: it is total, and on valid Utf-8
/// input it agrees with the exact decoding.
#[verifier::external_body]
pub fn utf8_decode_lossy(b: &[u8]) -> (r: String)
    ensures
        r@ == utf8_decoded_lossy(b@),
        valid_utf8(b@) ==> r@ == decode_utf8(b@),
{
    String::from_utf8_lossy(b).into_owned()
}

/// What encoding a body text under a charset yields; nothing, where some
/// character cannot be represented.
pub open spec fn spec_encode_body(e: PaymentEncoding, s: Seq<char>) -> Option<Seq<u8>> {
    match e {
        PaymentEncoding::Win1251 => win1251_encoded(s),
        PaymentEncoding::Utf8 => Some(encode_utf8(s)),
        PaymentEncoding::Koi8R => koi8r_encoded(s),
    }
}

/// What strictly decoding body bytes under a charset yields; nothing,
/// where the bytes are not a valid encoding.
pub open spec fn spec_decode_body(e: PaymentEncoding, b: Seq<u8>) -> Option<Seq<char>> {
    match e {
        PaymentEncoding::Win1251 => win1251_decoded(b),
        PaymentEncoding::Utf8 => if valid_utf8(b) {
            Some(decode_utf8(b))
        } else {
            None
        },
        PaymentEncoding::Koi8R => koi8r_decoded(b),
    }
}

/// What lossily decoding body bytes under a charset yields: a total
/// reading that replaces what cannot be decoded.
pub open spec fn spec_decode_body_lossy(e: PaymentEncoding, b: Seq<u8>) -> Seq<char> {
    match e {
        PaymentEncoding::Win1251 => win1251_decoded_lossy(b),
        PaymentEncoding::Utf8 => utf8_decoded_lossy(b),
        PaymentEncoding::Koi8R => koi8r_decoded_lossy(b),
    }
}

/// Encodes a body text into wire bytes under the given charset.
pub fn encode_body(e: PaymentEncoding, s: &str) -> (r: Result<Vec<u8>, Error>)
    ensures
        match r {
            Ok(v) => spec_encode_body(e, s@) == Some(v@),
            Err(err) => spec_encode_body(e, s@) is None && err == Error::EncodingError,
        },
{
    match e {
        PaymentEncoding::Win1251 => match win1251_encode(s) {
            Some(v) => Ok(v),
            None => Err(Error::EncodingError),
        },
        PaymentEncoding::Utf8 => Ok(s.as_bytes_vec()),
        PaymentEncoding::Koi8R => match koi8r_encode(s) {
            Some(v) => Ok(v),
            None => Err(Error::EncodingError),
        },
    }
}

/// Strictly decodes body bytes under the given charset.
pub fn decode_body(e: PaymentEncoding, b: &[u8]) -> (r: Result<String, Error>)
    ensures
        match r {
            Ok(s) => spec_decode_body(e, b@) == Some(s@),
            Err(err) => spec_decode_body(e, b@) is None && err == Error::DecodingError,
        },
{
    let decoded = match e {
        PaymentEncoding::Win1251 => win1251_decode(b),
        PaymentEncoding::Utf8 => utf8_decode(b),
        PaymentEncoding::Koi8R => koi8r_decode(b),
    };
    match decoded {
        Some(s) => Ok(s),
        None => Err(Error::DecodingError),
    }
}

/// Lossily decodes body bytes under the given charset; this reading is
/// total.
pub fn decode_body_lossy(e: PaymentEncoding, b: &[u8]) -> (r: String)
    ensures
        r@ == spec_decode_body_lossy(e, b@),
        spec_decode_body(e, b@) matches Some(s) ==> r@ == s,
{
    match e {
        PaymentEncoding::Win1251 => win1251_decode_lossy(b),
        PaymentEncoding::Utf8 => utf8_decode_lossy(b),
        PaymentEncoding::Koi8R => koi8r_decode_lossy(b),
    }
}

} // verus!
