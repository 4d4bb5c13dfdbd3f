//! The fixed preamble of a payload: format marker, version, charset code
//! and separator.

use vstd::prelude::*;

verus! {

use crate::error::{Error, ErrorV};

/// The fixed two-byte format marker every payload opens with.
pub const FORMAT_ID_BYTES: [u8; 2] = [83u8, 84u8];

/// The default version of the format.
pub const VERSION_0001_BYTES: [u8; 4] = [48u8, 48u8, 48u8, 49u8];

/// The three supported charsets of a payload body.
#[derive(Clone, Copy, Debug, PartialEq, Eq)]
pub enum PaymentEncoding {
    /// Windows-1251.
    Win1251,
    /// Utf-8.
    Utf8,
    /// KOI8-R.
    Koi8R,
}

/// The single-byte wire code of a charset.
pub open spec fn spec_enc_code(e: PaymentEncoding) -> u8 {
    match e {
        PaymentEncoding::Win1251 => 49u8,
        PaymentEncoding::Utf8 => 50u8,
        PaymentEncoding::Koi8R => 51u8,
    }
}

/// The charset a wire code names, if any.
pub open spec fn spec_enc_from(code: u8) -> Option<PaymentEncoding> {
    if code == 49u8 {
        Some(PaymentEncoding::Win1251)
    } else if code == 50u8 {
        Some(PaymentEncoding::Utf8)
    } else if code == 51u8 {
        Some(PaymentEncoding::Koi8R)
    } else {
        None
    }
}

impl PaymentEncoding {
    /// The single-byte wire code of this charset.
    pub fn code(&self) -> (r: u8)
        ensures
            r == spec_enc_code(*self),
    {
        match self {
            PaymentEncoding::Win1251 => 49u8,
            PaymentEncoding::Utf8 => 50u8,
            PaymentEncoding::Koi8R => 51u8,
        }
    }

    /// Reads a charset back from its wire code.
    pub fn try_from_code(code: u8) -> (r: Result<PaymentEncoding, Error>)
        ensures
            match r {
                Ok(e) => spec_enc_from(code) == Some(e),
                Err(err) => spec_enc_from(code) is None && err@ == ErrorV::UnknownEncodingCode(
                    code,
                ),
            },
    {
        if code == 49u8 {
            Ok(PaymentEncoding::Win1251)
        } else if code == 50u8 {
            Ok(PaymentEncoding::Utf8)
        } else if code == 51u8 {
            Ok(PaymentEncoding::Koi8R)
        } else {
            Err(Error::UnknownEncodingCode(code))
        }
    }

    /// The wire code of this charset, as a character.
    pub fn char(&self) -> (r: char)
        ensures
            r == spec_enc_char(*self),
    {
        match self {
            PaymentEncoding::Win1251 => '1',
            PaymentEncoding::Utf8 => '2',
            PaymentEncoding::Koi8R => '3',
        }
    }

    /// The human-readable name of this charset.
    pub fn name(&self) -> (r: &str)
        ensures
            r@ == spec_enc_name(*self),
    {
        match self {
            PaymentEncoding::Win1251 => "Windows-1251",
            PaymentEncoding::Utf8 => "Utf-8",
            PaymentEncoding::Koi8R => "KOI8-R",
        }
    }
}

/// The wire code of a charset, as the character it codes.
pub open spec fn spec_enc_char(e: PaymentEncoding) -> char {
    (spec_enc_code(e) as u32) as char
}

/// The human-readable name of a charset.
pub open spec fn spec_enc_name(e: PaymentEncoding) -> Seq<char> {
    match e {
        PaymentEncoding::Win1251 => "Windows-1251"@,
        PaymentEncoding::Utf8 => "Utf-8"@,
        PaymentEncoding::Koi8R => "KOI8-R"@,
    }
}

/// The preamble of a payload.
#[derive(Clone, Debug, PartialEq, Eq)]
pub struct PaymentHeader {
    /// Format marker; always the fixed `"ST"`.
    pub(crate) format_id: [u8; 2],
    /// Format version, four ASCII digits.
    pub(crate) version: [u8; 4],
    /// Charset of the body.
    pub(crate) encoding: PaymentEncoding,
    /// The byte separating the body's `Key=Value` pairs.
    pub(crate) separator: u8,
}

/// The abstract value of a [`PaymentHeader`].
#[verifier::ext_equal]
pub struct HeaderV {
    pub format_id: Seq<u8>,
    pub version: Seq<u8>,
    pub encoding: PaymentEncoding,
    pub separator: u8,
}

impl View for PaymentHeader {
    type V = HeaderV;

    open(crate) spec fn view(&self) -> HeaderV {
        HeaderV {
            format_id: self.format_id@,
            version: self.version@,
            encoding: self.encoding,
            separator: self.separator,
        }
    }
}

impl PaymentHeader {
    /// The format marker of this header.
    pub fn format_id(&self) -> (r: [u8; 2])
        ensures
            r@ == self@.format_id,
    {
        self.format_id
    }

    /// The version of this header.
    pub fn version(&self) -> (r: [u8; 4])
        ensures
            r@ == self@.version,
    {
        self.version
    }

    /// The charset of the body.
    pub fn encoding(&self) -> (r: PaymentEncoding)
        ensures
            r == self@.encoding,
    {
        self.encoding
    }

    /// The byte separating the body's pairs.
    pub fn separator(&self) -> (r: u8)
        ensures
            r == self@.separator,
    {
        self.separator
    }
}

/// The message of the header-too-short failure.
pub open spec fn msg_short_header() -> Seq<char> {
    "cannot read a header: the payload holds fewer than 8 units"@
}

/// The message prefix of the text-input charset failure.
pub open spec fn msg_text_not_utf8(e: PaymentEncoding) -> Seq<char> {
    "a text body must be Utf-8 encoded, but the header declares "@ + spec_enc_name(e)
}

/// Reading the preamble out of the first eight bytes: the length check,
/// the format marker, the version against the parser's expected version,
/// the charset code, and the raw separator byte, in that order.
pub open spec fn spec_parse_header(bytes: Seq<u8>, version: Seq<u8>) -> Result<HeaderV, ErrorV> {
    if bytes.len() < 8 {
        Err(ErrorV::CorruptedHeader(msg_short_header()))
    } else if !(bytes[0] == FORMAT_ID_BYTES[0] && bytes[1] == FORMAT_ID_BYTES[1]) {
        Err(ErrorV::WrongFormatId(seq![bytes[0], bytes[1]]))
    } else if bytes.subrange(2, 6) != version {
        Err(
            ErrorV::UnsupportedVersion {
                passed: bytes.subrange(2, 6),
                current: version,
            },
        )
    } else {
        match spec_enc_from(bytes[6]) {
            None => Err(ErrorV::UnknownEncodingCode(bytes[6])),
            Some(e) => Ok(
                HeaderV {
                    format_id: FORMAT_ID_BYTES@,
                    version: version,
                    encoding: e,
                    separator: bytes[7],
                },
            ),
        }
    }
}

/// Reads the preamble out of the first eight bytes of a payload.
pub fn read_payment_header_bytes(bytes: &[u8], version: &[u8; 4]) -> (r: Result<
    PaymentHeader,
    Error,
>)
    ensures
        match r {
            Ok(h) => spec_parse_header(bytes@, version@) == Ok::<HeaderV, ErrorV>(h@),
            Err(e) => spec_parse_header(bytes@, version@) == Err::<HeaderV, ErrorV>(e@),
        },
{
    if bytes.len() < 8 {
        return Err(
            Error::CorruptedHeader(
                "cannot read a header: the payload holds fewer than 8 units".to_owned(),
            ),
        );
    }
    if !(bytes[0] == FORMAT_ID_BYTES[0] && bytes[1] == FORMAT_ID_BYTES[1]) {
        return Err(Error::WrongFormatId([bytes[0], bytes[1]]));
    }
    let passed: [u8; 4] = [bytes[2], bytes[3], bytes[4], bytes[5]];
    proof {
        assert(passed@ =~= bytes@.subrange(2, 6));
    }
    if !(bytes[2] == version[0] && bytes[3] == version[1] && bytes[4] == version[2] && bytes[5]
        == version[3]) {
        proof {
            assert(bytes@.subrange(2, 6) != version@) by {
                assert(passed@ != version@);
            }
        }
        return Err(Error::UnsupportedVersion { passed, current: *version });
    }
    proof {
        assert(bytes@.subrange(2, 6) =~= version@);
    }
    let encoding = match PaymentEncoding::try_from_code(bytes[6]) {
        Ok(e) => e,
        Err(err) => {
            return Err(err);
        },
    };
    let h = PaymentHeader {
        format_id: FORMAT_ID_BYTES,
        version: *version,
        encoding,
        separator: bytes[7],
    };
    proof {
        assert(h@.format_id =~= FORMAT_ID_BYTES@);
    }
    Ok(h)
}

} // verus!
