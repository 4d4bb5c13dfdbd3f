//! Error taxonomy of the codec, and its mathematical view.

use vstd::prelude::*;

verus! {

use crate::strutil::push_char;

/// Everything that can go wrong while building, encoding or decoding a
/// payment. Every failure is terminal for the call that raised it.
#[derive(Clone, Debug, PartialEq, Eq)]
pub enum Error {
    /// The header could not be read: fewer than eight units, or a text
    /// input whose declared charset is not the one the parser demands.
    CorruptedHeader(String),
    /// The body bytes could not be decoded under the header's charset.
    DecodingError,
    /// A character of the body cannot be represented in the chosen charset.
    EncodingError,
    /// The required requisites were not supplied.
    RequiredRequisiteNotPresented,
    /// A `Key=Value` pair whose key no built-in kind and no extension claims.
    UnknownPair(String, String),
    /// The header's charset code is none of the three supported ones.
    UnknownEncodingCode(u8),
    /// A `TechCode` value outside the closed two-digit catalogue.
    UnknownTechCode(String),
    /// The header's version differs from the version the parser expects.
    UnsupportedVersion { passed: [u8; 4], current: [u8; 4] },
    /// The first two header bytes are not the fixed format marker.
    WrongFormatId([u8; 2]),
    /// A malformed pair, or a value that breaks its kind's size constraint.
    WrongPair(String, String),
    /// The first five decoded fields are not the required requisites in
    /// their fixed order.
    WrongRequiredRequisiteOrder { passed: String, expected: String },
}

/// The abstract value of an [`Error`]: the same variants over mathematical
/// sequences, so that contracts can pin errors down exactly.
pub enum ErrorV {
    CorruptedHeader(Seq<char>),
    DecodingError,
    EncodingError,
    RequiredRequisiteNotPresented,
    UnknownPair(Seq<char>, Seq<char>),
    UnknownEncodingCode(u8),
    UnknownTechCode(Seq<char>),
    UnsupportedVersion { passed: Seq<u8>, current: Seq<u8> },
    WrongFormatId(Seq<u8>),
    WrongPair(Seq<char>, Seq<char>),
    WrongRequiredRequisiteOrder { passed: Seq<char>, expected: Seq<char> },
}

/// The character a raw byte of an error payload is shown as.
pub open spec fn code_char(b: u8) -> char {
    (b as u32) as char
}

/// The characters a byte sequence of an error payload is shown as.
pub open spec fn code_chars(s: Seq<u8>) -> Seq<char> {
    s.map_values(|b: u8| code_char(b))
}

/// The character of one decimal digit.
pub open spec fn digit_char(d: u8) -> char {
    ((48 + d) as u32) as char
}

/// The decimal rendering of a byte, without leading zeros.
pub open spec fn decimal_chars(b: u8) -> Seq<char> {
    if b < 10 {
        seq![digit_char(b)]
    } else if b < 100 {
        seq![digit_char(b / 10), digit_char(b % 10)]
    } else {
        seq![digit_char(b / 100), digit_char((b / 10) % 10), digit_char(b % 10)]
    }
}

/// The text of each error.
pub open spec fn spec_message(e: ErrorV) -> Seq<char> {
    match e {
        ErrorV::CorruptedHeader(msg) => "corrupted header: "@ + msg,
        ErrorV::DecodingError => "the body could not be decoded"@,
        ErrorV::EncodingError => "the body could not be encoded"@,
        ErrorV::RequiredRequisiteNotPresented => "the required requisites are not present"@,
        ErrorV::UnknownPair(k, v) => "unknown requisite: "@ + k + seq!['='] + v,
        ErrorV::UnknownEncodingCode(code) => "unknown charset code "@ + decimal_chars(code),
        ErrorV::UnknownTechCode(v) => "unknown technical code "@ + v,
        ErrorV::UnsupportedVersion { passed, current } => "version "@ + code_chars(passed)
            + " is not supported, the current version is "@ + code_chars(current),
        ErrorV::WrongFormatId(id) => "wrong format id "@ + code_chars(id),
        ErrorV::WrongPair(k, v) => "wrong value for the pair "@ + k + seq!['='] + v,
        ErrorV::WrongRequiredRequisiteOrder { passed, expected } =>
            "wrong order of the required requisites: expected "@ + expected + ", found "@ + passed,
    }
}

/// Appends the decimal rendering of a byte.
fn push_decimal(s: &mut String, b: u8)
    ensures
        final(s)@ == old(s)@ + decimal_chars(b),
{
    let ghost start = s@;
    if b >= 100 {
        push_char(s, ((48 + b / 100) as char));
        push_char(s, ((48 + (b / 10) % 10) as char));
        push_char(s, ((48 + b % 10) as char));
        proof {
            assert(final(s)@ =~= start + decimal_chars(b));
        }
    } else if b >= 10 {
        push_char(s, ((48 + b / 10) as char));
        push_char(s, ((48 + b % 10) as char));
        proof {
            assert(final(s)@ =~= start + decimal_chars(b));
        }
    } else {
        push_char(s, ((48 + b) as char));
        proof {
            assert(final(s)@ =~= start + decimal_chars(b));
        }
    }
}

/// Appends each byte as the character it codes.
fn push_code_chars(s: &mut String, b: &[u8])
    ensures
        final(s)@ == old(s)@ + code_chars(b@),
{
    let ghost start = s@;
    let mut i: usize = 0;
    while i < b.len()
        invariant
            0 <= i <= b@.len(),
            s@ == start + code_chars(b@).take(i as int),
        decreases b@.len() - i,
    {
        push_char(s, b[i] as char);
        i += 1;
        proof {
            assert(code_chars(b@).take(i as int) =~= code_chars(b@).take(i - 1).push(
                code_char(b@[i - 1]),
            ));
            assert(s@ =~= start + code_chars(b@).take(i as int));
        }
    }
    proof {
        assert(code_chars(b@).take(b@.len() as int) =~= code_chars(b@));
    }
}

impl Error {
    /// A human-readable description of this error.
    pub fn message(&self) -> (r: String)
        ensures
            r@ == spec_message(self@),
    {
        match self {
            Error::CorruptedHeader(msg) => {
                let mut s = String::from_str("corrupted header: ");
                s.append(msg.as_str());
                s
            },
            Error::DecodingError => String::from_str("the body could not be decoded"),
            Error::EncodingError => String::from_str("the body could not be encoded"),
            Error::RequiredRequisiteNotPresented => String::from_str(
                "the required requisites are not present",
            ),
            Error::UnknownPair(k, v) => {
                let mut s = String::from_str("unknown requisite: ");
                s.append(k.as_str());
                push_char(&mut s, '=');
                s.append(v.as_str());
                proof {
                    assert(s@ =~= spec_message(self@));
                }
                s
            },
            Error::UnknownEncodingCode(code) => {
                let mut s = String::from_str("unknown charset code ");
                push_decimal(&mut s, *code);
                s
            },
            Error::UnknownTechCode(v) => {
                let mut s = String::from_str("unknown technical code ");
                s.append(v.as_str());
                s
            },
            Error::UnsupportedVersion { passed, current } => {
                let mut s = String::from_str("version ");
                push_code_chars(&mut s, passed.as_slice());
                s.append(" is not supported, the current version is ");
                push_code_chars(&mut s, current.as_slice());
                proof {
                    assert(s@ =~= spec_message(self@));
                }
                s
            },
            Error::WrongFormatId(id) => {
                let mut s = String::from_str("wrong format id ");
                push_code_chars(&mut s, id.as_slice());
                s
            },
            Error::WrongPair(k, v) => {
                let mut s = String::from_str("wrong value for the pair ");
                s.append(k.as_str());
                push_char(&mut s, '=');
                s.append(v.as_str());
                proof {
                    assert(s@ =~= spec_message(self@));
                }
                s
            },
            Error::WrongRequiredRequisiteOrder { passed, expected } => {
                let mut s = String::from_str("wrong order of the required requisites: expected ");
                s.append(expected.as_str());
                s.append(", found ");
                s.append(passed.as_str());
                proof {
                    assert(s@ =~= spec_message(self@));
                }
                s
            },
        }
    }
}

impl View for Error {
    type V = ErrorV;

    open spec fn view(&self) -> ErrorV {
        match self {
            Error::CorruptedHeader(msg) => ErrorV::CorruptedHeader(msg@),
            Error::DecodingError => ErrorV::DecodingError,
            Error::EncodingError => ErrorV::EncodingError,
            Error::RequiredRequisiteNotPresented => ErrorV::RequiredRequisiteNotPresented,
            Error::UnknownPair(k, v) => ErrorV::UnknownPair(k@, v@),
            Error::UnknownEncodingCode(code) => ErrorV::UnknownEncodingCode(*code),
            Error::UnknownTechCode(v) => ErrorV::UnknownTechCode(v@),
            Error::UnsupportedVersion { passed, current } => ErrorV::UnsupportedVersion {
                passed: passed@,
                current: current@,
            },
            Error::WrongFormatId(id) => ErrorV::WrongFormatId(id@),
            Error::WrongPair(k, v) => ErrorV::WrongPair(k@, v@),
            Error::WrongRequiredRequisiteOrder { passed, expected } =>
                ErrorV::WrongRequiredRequisiteOrder { passed: passed@, expected: expected@ },
        }
    }
}

} // verus!
