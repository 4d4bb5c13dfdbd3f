//! The three decoding policies. All of them demand a structurally valid
//! header; they differ in how malformed or unknown body pairs are treated
//! and in whether the required-field order is enforced.

use core::marker::PhantomData;
use vstd::prelude::*;

verus! {

use crate::charset::{
    decode_body, decode_body_lossy, spec_decode_body, spec_decode_body_lossy,
};
use crate::custom::{CustomRequisites, NoCustomRequisites};
use crate::error::{Error, ErrorV};
use crate::header::{
    msg_text_not_utf8, read_payment_header_bytes, spec_parse_header, HeaderV, PaymentEncoding,
    VERSION_0001_BYTES,
};
use crate::payment::{byte_char, fields_of, Payment, PaymentV};
use crate::requisite::{
    field_key, field_wf, spec_parse_known, FieldV, KnownParse, Requisite,
};
use crate::strutil::{chars_to_string, str_to_chars};
use crate::textmodel::{chunk_kv, split_chars, split_chunk_kv, split_text};
use vstd::slice::slice_subrange;
use vstd::string::StringExecFns;

/// The byte a character of a text input is narrowed to before the header
/// checks run: its low eight bits.
pub open spec fn char_byte(c: char) -> u8 {
    ((c as u32) % 256) as u8
}

/// The bytes the header checks see on a text input: the first eight
/// characters, narrowed.
pub open spec fn text_header_bytes(text: Seq<char>) -> Seq<u8> {
    if text.len() < 8 {
        text.map_values(|c: char| char_byte(c))
    } else {
        text.take(8).map_values(|c: char| char_byte(c))
    }
}

/// What parsing one chunk yields under the strict policy: a chunk without
/// `=` is malformed, a known key applies its constraint, and an unknown
/// key stands or falls with the extension point.
pub open spec fn spec_parse_chunk<T: CustomRequisites>(chunk: Seq<char>) -> Result<FieldV, ErrorV> {
    match chunk_kv(chunk) {
        None => Err(ErrorV::WrongPair(chunk, Seq::empty())),
        Some(kv) => match spec_parse_known(kv.0, kv.1) {
            KnownParse::Known(f) => Ok(f),
            KnownParse::Bad(e) => Err(e),
            KnownParse::Unknown => match T::spec_try_from(kv.0, kv.1) {
                Some(c) => Ok(FieldV::Custom(c.spec_key(), c.spec_value())),
                None => Err(T::spec_try_err(kv.0, kv.1)),
            },
        },
    }
}

/// Strict reading of the body chunks: the first failing chunk fails the
/// whole decode.
pub open spec fn spec_read_strict<T: CustomRequisites>(chunks: Seq<Seq<char>>) -> Result<
    Seq<FieldV>,
    ErrorV,
>
    decreases chunks.len(),
{
    if chunks.len() == 0 {
        Ok(Seq::empty())
    } else {
        match spec_parse_chunk::<T>(chunks[0]) {
            Err(e) => Err(e),
            Ok(f) => match spec_read_strict::<T>(chunks.drop_first()) {
                Err(e) => Err(e),
                Ok(rest) => Ok(seq![f] + rest),
            },
        }
    }
}

/// Tolerant reading of the body chunks: a chunk that does not parse is
/// silently omitted.
pub open spec fn spec_read_tolerant<T: CustomRequisites>(chunks: Seq<Seq<char>>) -> Seq<FieldV>
    decreases chunks.len(),
{
    if chunks.len() == 0 {
        Seq::empty()
    } else {
        let rest = spec_read_tolerant::<T>(chunks.drop_first());
        match spec_parse_chunk::<T>(chunks[0]) {
            Ok(f) => seq![f] + rest,
            Err(_) => rest,
        }
    }
}

/// The error reported when position `i` does not hold the expected
/// required field: the key actually found there, or the placeholder
/// `empty` when the sequence is shorter.
pub open spec fn order_err(fields: Seq<FieldV>, i: int, expected: Seq<char>) -> ErrorV {
    ErrorV::WrongRequiredRequisiteOrder {
        passed: if i < fields.len() {
            field_key(fields[i])
        } else {
            "empty"@
        },
        expected,
    }
}

/// The required-order check: positions 0 to 4 must hold exactly `Name`,
/// `PersonalAcc`, `BankName`, `BIC`, `CorrespAcc`; the first mismatch is
/// reported.
pub open spec fn spec_validate_required(fields: Seq<FieldV>) -> Option<ErrorV> {
    if !(fields.len() > 0 && fields[0] is Name) {
        Some(order_err(fields, 0, "Name"@))
    } else if !(fields.len() > 1 && fields[1] is PersonalAcc) {
        Some(order_err(fields, 1, "PersonalAcc"@))
    } else if !(fields.len() > 2 && fields[2] is BankName) {
        Some(order_err(fields, 2, "BankName"@))
    } else if !(fields.len() > 3 && fields[3] is BIC) {
        Some(order_err(fields, 3, "BIC"@))
    } else if !(fields.len() > 4 && fields[4] is CorrespAcc) {
        Some(order_err(fields, 4, "CorrespAcc"@))
    } else {
        None
    }
}

/// What the strict policy makes of a byte payload.
pub open spec fn spec_strict_from_bytes<T: CustomRequisites>(
    bytes: Seq<u8>,
    version: Seq<u8>,
) -> Result<PaymentV, ErrorV> {
    match spec_parse_header(bytes, version) {
        Err(e) => Err(e),
        Ok(h) => match spec_decode_body(h.encoding, bytes.skip(8)) {
            None => Err(ErrorV::DecodingError),
            Some(data) => match spec_read_strict::<T>(split_text(data, byte_char(h.separator))) {
                Err(e) => Err(e),
                Ok(fields) => match spec_validate_required(fields) {
                    Some(e) => Err(e),
                    None => Ok(PaymentV { header: h, fields }),
                },
            },
        },
    }
}

/// What the strict policy makes of a text payload, whose body is already
/// text: the header must in addition declare Utf-8.
pub open spec fn spec_strict_from_text<T: CustomRequisites>(
    text: Seq<char>,
    version: Seq<u8>,
) -> Result<PaymentV, ErrorV> {
    match spec_parse_header(text_header_bytes(text), version) {
        Err(e) => Err(e),
        Ok(h) => if !(h.encoding is Utf8) {
            Err(ErrorV::CorruptedHeader(msg_text_not_utf8(h.encoding)))
        } else {
            match spec_read_strict::<T>(split_text(text.skip(8), byte_char(h.separator))) {
                Err(e) => Err(e),
                Ok(fields) => match spec_validate_required(fields) {
                    Some(e) => Err(e),
                    None => Ok(PaymentV { header: h, fields }),
                },
            }
        },
    }
}

/// What the requisite-tolerant policy makes of a byte payload: failing
/// pairs are dropped, the required order is still enforced.
pub open spec fn spec_tolerant_from_bytes<T: CustomRequisites>(
    bytes: Seq<u8>,
    version: Seq<u8>,
) -> Result<PaymentV, ErrorV> {
    match spec_parse_header(bytes, version) {
        Err(e) => Err(e),
        Ok(h) => match spec_decode_body(h.encoding, bytes.skip(8)) {
            None => Err(ErrorV::DecodingError),
            Some(data) => {
                let fields = spec_read_tolerant::<T>(split_text(data, byte_char(h.separator)));
                match spec_validate_required(fields) {
                    Some(e) => Err(e),
                    None => Ok(PaymentV { header: h, fields }),
                }
            },
        },
    }
}

/// What the requisite-tolerant policy makes of a text payload.
pub open spec fn spec_tolerant_from_text<T: CustomRequisites>(
    text: Seq<char>,
    version: Seq<u8>,
) -> Result<PaymentV, ErrorV> {
    match spec_parse_header(text_header_bytes(text), version) {
        Err(e) => Err(e),
        Ok(h) => if !(h.encoding is Utf8) {
            Err(ErrorV::CorruptedHeader(msg_text_not_utf8(h.encoding)))
        } else {
            let fields = spec_read_tolerant::<T>(split_text(text.skip(8), byte_char(h.separator)));
            match spec_validate_required(fields) {
                Some(e) => Err(e),
                None => Ok(PaymentV { header: h, fields }),
            }
        },
    }
}

/// What the loose policy makes of a byte payload: the body is read
/// lossily, failing pairs are dropped, and the required order is not
/// enforced. Only a header failure can fail this decode.
pub open spec fn spec_loose_from_bytes<T: CustomRequisites>(
    bytes: Seq<u8>,
    version: Seq<u8>,
) -> Result<PaymentV, ErrorV> {
    match spec_parse_header(bytes, version) {
        Err(e) => Err(e),
        Ok(h) => {
            let data = spec_decode_body_lossy(h.encoding, bytes.skip(8));
            Ok(
                PaymentV {
                    header: h,
                    fields: spec_read_tolerant::<T>(split_text(data, byte_char(h.separator))),
                },
            )
        },
    }
}

/// What the loose policy makes of a text payload: unlike the other two it
/// does not demand that the header declare Utf-8.
pub open spec fn spec_loose_from_text<T: CustomRequisites>(
    text: Seq<char>,
    version: Seq<u8>,
) -> Result<PaymentV, ErrorV> {
    match spec_parse_header(text_header_bytes(text), version) {
        Err(e) => Err(e),
        Ok(h) => Ok(
            PaymentV {
                header: h,
                fields: spec_read_tolerant::<T>(
                    split_text(text.skip(8), byte_char(h.separator)),
                ),
            },
        ),
    }
}

/// Every field of a decoded payment obeys its size constraint.
pub open spec fn fields_wf(fields: Seq<FieldV>) -> bool {
    forall|i: int| 0 <= i < fields.len() ==> field_wf(#[trigger] fields[i])
}

/// How a decode result relates to its specification: the same outcome,
/// the payment seen through its view, every decoded field well-formed.
pub open spec fn decode_matches<T: CustomRequisites>(
    r: Result<Payment<T>, Error>,
    s: Result<PaymentV, ErrorV>,
) -> bool {
    match r {
        Ok(p) => s matches Ok(pv) && p@ == pv && fields_wf(p@.fields),
        Err(e) => s matches Err(ev) && e@ == ev,
    }
}

/// A partial strict reading: the fields already taken, continued by what
/// the remaining chunks yield.
pub open spec fn read_strict_rest(
    done: Seq<FieldV>,
    rest: Result<Seq<FieldV>, ErrorV>,
) -> Result<Seq<FieldV>, ErrorV> {
    match rest {
        Ok(fs) => Ok(done + fs),
        Err(e) => Err(e),
    }
}

/// Parses one chunk of the body.
fn parse_chunk<T: CustomRequisites>(chunk: &Vec<char>) -> (r: Result<Requisite<T>, Error>)
    ensures
        match spec_parse_chunk::<T>(chunk@) {
            Ok(f) => r matches Ok(q) && q@ == f && q.wf(),
            Err(e) => r matches Err(err) && err@ == e,
        },
{
    match split_chunk_kv(chunk) {
        None => Err(Error::WrongPair(chars_to_string(chunk.as_slice()), String::new())),
        Some(kv) => match Requisite::<T>::try_from_pair(kv.0.as_str(), kv.1.as_str()) {
            Ok(q) => Ok(q),
            Err(e) => Err(e),
        },
    }
}

/// Reads the body chunks strictly: the first failing chunk fails the
/// decode.
fn read_requisites_strict<T: CustomRequisites>(data: &[char], sep: char) -> (r: Result<
    Vec<Requisite<T>>,
    Error,
>)
    ensures
        match r {
            Ok(reqs) => spec_read_strict::<T>(split_text(data@, sep)) == Ok::<_, ErrorV>(
                fields_of(reqs@),
            ) && fields_wf(fields_of(reqs@)),
            Err(e) => spec_read_strict::<T>(split_text(data@, sep)) == Err::<Seq<FieldV>, _>(e@),
        },
{
    let chunks = split_chars(data, sep);
    let ghost chunksv = split_text(data@, sep);
    let mut out: Vec<Requisite<T>> = Vec::new();
    let mut i: usize = 0;
    proof {
        assert(chunksv.skip(0) =~= chunksv);
        assert(fields_of(out@) + Seq::<FieldV>::empty() =~= fields_of(out@));
    }
    while i < chunks.len()
        invariant
            0 <= i <= chunks@.len(),
            chunksv == split_text(data@, sep),
            chunks.deep_view() == chunksv,
            chunks@.len() == chunksv.len(),
            fields_wf(fields_of(out@)),
            spec_read_strict::<T>(chunksv) == read_strict_rest(
                fields_of(out@),
                spec_read_strict::<T>(chunksv.skip(i as int)),
            ),
        decreases chunks@.len() - i,
    {
        let ghost rest = chunksv.skip(i as int);
        proof {
            assert(rest[0] == chunksv[i as int]);
            assert(chunks.deep_view()[i as int] == chunks@[i as int]@);
            assert(rest.drop_first() =~= chunksv.skip(i as int + 1));
        }
        let ghost old_out = fields_of(out@);
        match parse_chunk::<T>(&chunks[i]) {
            Ok(q) => {
                out.push(q);
                proof {
                    assert(fields_of(out@) =~= old_out.push(q@));
                    match spec_read_strict::<T>(chunksv.skip(i as int + 1)) {
                        Ok(fs) => {
                            assert(old_out + (seq![q@] + fs) =~= fields_of(out@) + fs);
                        },
                        Err(_) => {},
                    }
                }
            },
            Err(e) => {
                proof {
                    assert(spec_read_strict::<T>(rest) == Err::<Seq<FieldV>, _>(e@));
                }
                return Err(e);
            },
        }
        i += 1;
    }
    proof {
        assert(chunksv.skip(chunksv.len() as int) =~= Seq::<Seq<char>>::empty());
        assert(spec_read_strict::<T>(chunksv.skip(chunksv.len() as int)) == Ok::<_, ErrorV>(
            Seq::<FieldV>::empty(),
        ));
        assert(fields_of(out@) + Seq::<FieldV>::empty() =~= fields_of(out@));
    }
    Ok(out)
}

/// Reads the body chunks tolerantly: a chunk that does not parse is
/// dropped.
fn read_requisites_tolerant<T: CustomRequisites>(data: &[char], sep: char) -> (r: Vec<
    Requisite<T>,
>)
    ensures
        fields_of(r@) == spec_read_tolerant::<T>(split_text(data@, sep)),
        fields_wf(fields_of(r@)),
{
    let chunks = split_chars(data, sep);
    let ghost chunksv = split_text(data@, sep);
    let mut out: Vec<Requisite<T>> = Vec::new();
    let mut i: usize = 0;
    proof {
        assert(chunksv.skip(0) =~= chunksv);
        assert(fields_of(out@) =~= Seq::<FieldV>::empty());
    }
    while i < chunks.len()
        invariant
            0 <= i <= chunks@.len(),
            chunks.deep_view() == chunksv,
            chunks@.len() == chunksv.len(),
            fields_wf(fields_of(out@)),
            spec_read_tolerant::<T>(chunksv) == fields_of(out@) + spec_read_tolerant::<T>(
                chunksv.skip(i as int),
            ),
        decreases chunks@.len() - i,
    {
        let ghost rest = chunksv.skip(i as int);
        proof {
            assert(rest[0] == chunksv[i as int]);
            assert(chunks.deep_view()[i as int] == chunks@[i as int]@);
            assert(rest.drop_first() =~= chunksv.skip(i as int + 1));
        }
        let ghost old_out = fields_of(out@);
        match parse_chunk::<T>(&chunks[i]) {
            Ok(q) => {
                out.push(q);
                proof {
                    assert(fields_of(out@) =~= old_out.push(q@));
                    assert(old_out + (seq![q@] + spec_read_tolerant::<T>(
                        chunksv.skip(i as int + 1),
                    )) =~= fields_of(out@) + spec_read_tolerant::<T>(chunksv.skip(i as int + 1)));
                }
            },
            Err(_) => {},
        }
        i += 1;
    }
    proof {
        assert(chunksv.skip(chunksv.len() as int) =~= Seq::<Seq<char>>::empty());
        assert(fields_of(out@) + Seq::<FieldV>::empty() =~= fields_of(out@));
    }
    out
}

/// Checks the required-field order at the front of the decoded sequence.
fn validate_required_requisites<T: CustomRequisites>(reqs: &Vec<Requisite<T>>) -> (r: Result<
    (),
    Error,
>)
    ensures
        match r {
            Ok(_) => spec_validate_required(fields_of(reqs@)) is None,
            Err(e) => spec_validate_required(fields_of(reqs@)) == Some(e@),
        },
{
    let ghost fields = fields_of(reqs@);
    if reqs.len() < 1 || !matches!(&reqs[0], Requisite::Name(_)) {
        let passed: String = if reqs.len() >= 1 {
            reqs[0].key().to_owned()
        } else {
            "empty".to_owned()
        };
        return Err(
            Error::WrongRequiredRequisiteOrder { passed, expected: "Name".to_owned() },
        );
    }
    if reqs.len() < 2 || !matches!(&reqs[1], Requisite::PersonalAcc(_)) {
        let passed: String = if reqs.len() >= 2 {
            reqs[1].key().to_owned()
        } else {
            "empty".to_owned()
        };
        return Err(
            Error::WrongRequiredRequisiteOrder { passed, expected: "PersonalAcc".to_owned() },
        );
    }
    if reqs.len() < 3 || !matches!(&reqs[2], Requisite::BankName(_)) {
        let passed: String = if reqs.len() >= 3 {
            reqs[2].key().to_owned()
        } else {
            "empty".to_owned()
        };
        return Err(
            Error::WrongRequiredRequisiteOrder { passed, expected: "BankName".to_owned() },
        );
    }
    if reqs.len() < 4 || !matches!(&reqs[3], Requisite::BIC(_)) {
        let passed: String = if reqs.len() >= 4 {
            reqs[3].key().to_owned()
        } else {
            "empty".to_owned()
        };
        return Err(
            Error::WrongRequiredRequisiteOrder { passed, expected: "BIC".to_owned() },
        );
    }
    if reqs.len() < 5 || !matches!(&reqs[4], Requisite::CorrespAcc(_)) {
        let passed: String = if reqs.len() >= 5 {
            reqs[4].key().to_owned()
        } else {
            "empty".to_owned()
        };
        return Err(
            Error::WrongRequiredRequisiteOrder { passed, expected: "CorrespAcc".to_owned() },
        );
    }
    Ok(())
}

/// Narrows the first eight characters of a text input to bytes.
pub(crate) fn text_header(chars: &Vec<char>) -> (r: Vec<u8>)
    ensures
        r@ == text_header_bytes(chars@),
{
    let mut r: Vec<u8> = Vec::new();
    let end: usize = if chars.len() < 8 {
        chars.len()
    } else {
        8
    };
    let ghost pre = if chars@.len() < 8 {
        chars@
    } else {
        chars@.take(8)
    };
    let mut i: usize = 0;
    while i < end
        invariant
            0 <= i <= end,
            end == if chars@.len() < 8 {
                chars@.len() as int
            } else {
                8
            },
            end <= chars@.len(),
            pre == if chars@.len() < 8 {
                chars@
            } else {
                chars@.take(8)
            },
            r@ == pre.map_values(|c: char| char_byte(c)).take(i as int),
        decreases end - i,
    {
        let c = chars[i];
        let code: u32 = (c as u32) % 256;
        r.push(code as u8);
        i += 1;
        proof {
            assert(pre[i - 1] == chars@[i - 1]);
            assert(pre.map_values(|c: char| char_byte(c)).take(i as int) =~= pre.map_values(
                |c: char| char_byte(c),
            ).take(i - 1).push(char_byte(chars@[i - 1])));
        }
    }
    proof {
        assert(pre.map_values(|c: char| char_byte(c)).take(end as int) =~= pre.map_values(
            |c: char| char_byte(c),
        ));
        assert(text_header_bytes(chars@) =~= pre.map_values(|c: char| char_byte(c)));
    }
    r
}

/// The interface the three parsing policies share.
pub trait ParserStrategy<T: CustomRequisites> {
    /// Decodes a payment from text; the body is taken as already decoded.
    fn parse_from_str(&self, val: &str) -> Result<Payment<T>, Error>;

    /// Decodes a payment from raw bytes, with full charset handling.
    fn parse_from_bytes(&self, bytes: &[u8]) -> Result<Payment<T>, Error>;
}

/// A marker type naming one of the three policies.
pub trait ParserStrategyType {}

/// The policy that fails the whole decode on any malformed or unknown
/// pair and enforces the required-field order.
#[derive(Clone, Copy, Debug, PartialEq, Eq)]
pub struct StrictParser;

impl ParserStrategyType for StrictParser {}

/// The policy that drops malformed and unknown pairs but still enforces
/// the required-field order.
#[derive(Clone, Copy, Debug, PartialEq, Eq)]
pub struct RequisiteToleranceParser;

impl ParserStrategyType for RequisiteToleranceParser {}

/// The policy that drops malformed and unknown pairs, reads bytes
/// lossily and enforces no ordering.
#[derive(Clone, Copy, Debug, PartialEq, Eq)]
pub struct LooseParser;

impl ParserStrategyType for LooseParser {}

/// A parser configured with the version it accepts and the policy it
/// applies.
#[derive(Debug)]
pub struct PaymentParser<T: ParserStrategyType = StrictParser, RT: CustomRequisites = NoCustomRequisites> {
    pub(crate) version_id: [u8; 4],
    pub(crate) _strategy: PhantomData<T>,
    pub(crate) _requisites: PhantomData<RT>,
}

impl<T: ParserStrategyType, RT: CustomRequisites> View for PaymentParser<T, RT> {
    type V = Seq<u8>;

    open(crate) spec fn view(&self) -> Seq<u8> {
        self.version_id@
    }
}

impl<T: ParserStrategyType, RT: CustomRequisites> PaymentParser<T, RT> {
    /// A parser accepting the default version.
    pub fn new() -> (r: Self)
        ensures
            r@ == VERSION_0001_BYTES@,
    {
        PaymentParser {
            version_id: VERSION_0001_BYTES,
            _strategy: PhantomData,
            _requisites: PhantomData,
        }
    }

    /// Replaces the version this parser accepts.
    pub fn with_version(self, version_id: [u8; 4]) -> (r: Self)
        ensures
            r@ == version_id@,
    {
        let mut p = self;
        p.version_id = version_id;
        p
    }
}

impl<RT: CustomRequisites> PaymentParser<StrictParser, RT> {
    /// Decodes a payment from text under the strict policy.
    pub fn from_str(&self, val: &str) -> (r: Result<Payment<RT>, Error>)
        ensures
            decode_matches::<RT>(r, spec_strict_from_text::<RT>(val@, self@)),
    {
        let chars = str_to_chars(val);
        let hdr = text_header(&chars);
        let header = match read_payment_header_bytes(hdr.as_slice(), &self.version_id) {
            Ok(h) => h,
            Err(e) => {
                return Err(e);
            },
        };
        if !matches!(header.encoding, PaymentEncoding::Utf8) {
            return Err(Error::CorruptedHeader(not_utf8_message(&header.encoding)));
        }
        let data = slice_subrange(chars.as_slice(), 8, chars.len());
        let sep = header.separator as char;
        let requisites = match read_requisites_strict::<RT>(data, sep) {
            Ok(reqs) => reqs,
            Err(e) => {
                return Err(e);
            },
        };
        match validate_required_requisites(&requisites) {
            Ok(_) => Ok(Payment { header, requisites }),
            Err(e) => Err(e),
        }
    }

    /// Decodes a payment from raw bytes under the strict policy.
    pub fn from_bytes(&self, bytes: &[u8]) -> (r: Result<Payment<RT>, Error>)
        ensures
            decode_matches::<RT>(r, spec_strict_from_bytes::<RT>(bytes@, self@)),
    {
        let header = match read_payment_header_bytes(bytes, &self.version_id) {
            Ok(h) => h,
            Err(e) => {
                return Err(e);
            },
        };
        let body = slice_subrange(bytes, 8, bytes.len());
        let data = match decode_body(header.encoding, body) {
            Ok(s) => s,
            Err(e) => {
                return Err(e);
            },
        };
        let data = str_to_chars(data.as_str());
        let sep = header.separator as char;
        let requisites = match read_requisites_strict::<RT>(data.as_slice(), sep) {
            Ok(reqs) => reqs,
            Err(e) => {
                return Err(e);
            },
        };
        match validate_required_requisites(&requisites) {
            Ok(_) => Ok(Payment { header, requisites }),
            Err(e) => Err(e),
        }
    }
}

impl<RT: CustomRequisites> PaymentParser<RequisiteToleranceParser, RT> {
    /// Decodes a payment from text under the requisite-tolerant policy.
    pub fn from_str(&self, val: &str) -> (r: Result<Payment<RT>, Error>)
        ensures
            decode_matches::<RT>(r, spec_tolerant_from_text::<RT>(val@, self@)),
    {
        let chars = str_to_chars(val);
        let hdr = text_header(&chars);
        let header = match read_payment_header_bytes(hdr.as_slice(), &self.version_id) {
            Ok(h) => h,
            Err(e) => {
                return Err(e);
            },
        };
        if !matches!(header.encoding, PaymentEncoding::Utf8) {
            return Err(Error::CorruptedHeader(not_utf8_message(&header.encoding)));
        }
        let data = slice_subrange(chars.as_slice(), 8, chars.len());
        let sep = header.separator as char;
        let requisites = read_requisites_tolerant::<RT>(data, sep);
        match validate_required_requisites(&requisites) {
            Ok(_) => Ok(Payment { header, requisites }),
            Err(e) => Err(e),
        }
    }

    /// Decodes a payment from raw bytes under the requisite-tolerant
    /// policy.
    pub fn from_bytes(&self, bytes: &[u8]) -> (r: Result<Payment<RT>, Error>)
        ensures
            decode_matches::<RT>(r, spec_tolerant_from_bytes::<RT>(bytes@, self@)),
    {
        let header = match read_payment_header_bytes(bytes, &self.version_id) {
            Ok(h) => h,
            Err(e) => {
                return Err(e);
            },
        };
        let body = slice_subrange(bytes, 8, bytes.len());
        let data = match decode_body(header.encoding, body) {
            Ok(s) => s,
            Err(e) => {
                return Err(e);
            },
        };
        let data = str_to_chars(data.as_str());
        let sep = header.separator as char;
        let requisites = read_requisites_tolerant::<RT>(data.as_slice(), sep);
        match validate_required_requisites(&requisites) {
            Ok(_) => Ok(Payment { header, requisites }),
            Err(e) => Err(e),
        }
    }
}

impl<RT: CustomRequisites> PaymentParser<LooseParser, RT> {
    /// Decodes a payment from text under the loose policy.
    pub fn from_str(&self, val: &str) -> (r: Result<Payment<RT>, Error>)
        ensures
            decode_matches::<RT>(r, spec_loose_from_text::<RT>(val@, self@)),
    {
        let chars = str_to_chars(val);
        let hdr = text_header(&chars);
        let header = match read_payment_header_bytes(hdr.as_slice(), &self.version_id) {
            Ok(h) => h,
            Err(e) => {
                return Err(e);
            },
        };
        let data = slice_subrange(chars.as_slice(), 8, chars.len());
        let sep = header.separator as char;
        let requisites = read_requisites_tolerant::<RT>(data, sep);
        Ok(Payment { header, requisites })
    }

    /// Decodes a payment from raw bytes under the loose policy. Where the
    /// bytes would also decode strictly, the lossy reading agrees with the
    /// strict one, so the loose policy sees the same body text.
    pub fn from_bytes(&self, bytes: &[u8]) -> (r: Result<Payment<RT>, Error>)
        ensures
            decode_matches::<RT>(r, spec_loose_from_bytes::<RT>(bytes@, self@)),
            spec_parse_header(bytes@, self@) matches Ok(h) ==> spec_decode_body(
                h.encoding,
                bytes@.skip(8),
            ) matches Some(d) ==> spec_decode_body_lossy(h.encoding, bytes@.skip(8)) == d,
    {
        let header = match read_payment_header_bytes(bytes, &self.version_id) {
            Ok(h) => h,
            Err(e) => {
                return Err(e);
            },
        };
        let body = slice_subrange(bytes, 8, bytes.len());
        let data = decode_body_lossy(header.encoding, body);
        let data = str_to_chars(data.as_str());
        let sep = header.separator as char;
        let requisites = read_requisites_tolerant::<RT>(data.as_slice(), sep);
        Ok(Payment { header, requisites })
    }
}

impl<RT: CustomRequisites> ParserStrategy<RT> for PaymentParser<StrictParser, RT> {
    fn parse_from_str(&self, val: &str) -> (r: Result<Payment<RT>, Error>)
        ensures
            decode_matches::<RT>(r, spec_strict_from_text::<RT>(val@, self@)),
    {
        self.from_str(val)
    }

    fn parse_from_bytes(&self, bytes: &[u8]) -> (r: Result<Payment<RT>, Error>)
        ensures
            decode_matches::<RT>(r, spec_strict_from_bytes::<RT>(bytes@, self@)),
    {
        self.from_bytes(bytes)
    }
}

impl<RT: CustomRequisites> ParserStrategy<RT> for PaymentParser<RequisiteToleranceParser, RT> {
    fn parse_from_str(&self, val: &str) -> (r: Result<Payment<RT>, Error>)
        ensures
            decode_matches::<RT>(r, spec_tolerant_from_text::<RT>(val@, self@)),
    {
        self.from_str(val)
    }

    fn parse_from_bytes(&self, bytes: &[u8]) -> (r: Result<Payment<RT>, Error>)
        ensures
            decode_matches::<RT>(r, spec_tolerant_from_bytes::<RT>(bytes@, self@)),
    {
        self.from_bytes(bytes)
    }
}

impl<RT: CustomRequisites> ParserStrategy<RT> for PaymentParser<LooseParser, RT> {
    fn parse_from_str(&self, val: &str) -> (r: Result<Payment<RT>, Error>)
        ensures
            decode_matches::<RT>(r, spec_loose_from_text::<RT>(val@, self@)),
    {
        self.from_str(val)
    }

    fn parse_from_bytes(&self, bytes: &[u8]) -> (r: Result<Payment<RT>, Error>)
        ensures
            decode_matches::<RT>(r, spec_loose_from_bytes::<RT>(bytes@, self@)),
    {
        self.from_bytes(bytes)
    }
}

/// Builds the message naming the charset a text input wrongly declares.
pub(crate) fn not_utf8_message(e: &PaymentEncoding) -> (r: String)
    ensures
        r@ == msg_text_not_utf8(*e),
{
    let mut msg = String::from_str("a text body must be Utf-8 encoded, but the header declares ");
    msg.append(e.name());
    msg
}

impl Payment {
    /// The default parser: the strict policy, no extensions.
    pub fn parser() -> (r: PaymentParser<StrictParser, NoCustomRequisites>)
        ensures
            r@ == VERSION_0001_BYTES@,
    {
        PaymentParser::new()
    }

    /// A parser applying the requisite-tolerant policy.
    pub fn requisite_tolerance_parser() -> (r: PaymentParser<
        RequisiteToleranceParser,
        NoCustomRequisites,
    >)
        ensures
            r@ == VERSION_0001_BYTES@,
    {
        PaymentParser::new()
    }

    /// A parser applying the loose policy.
    pub fn loose_parser() -> (r: PaymentParser<LooseParser, NoCustomRequisites>)
        ensures
            r@ == VERSION_0001_BYTES@,
    {
        PaymentParser::new()
    }
}

impl<T: CustomRequisites> Payment<T> {
    /// The strict parser for payments carrying host-supplied requisites.
    pub fn custom_parser() -> (r: PaymentParser<StrictParser, T>)
        ensures
            r@ == VERSION_0001_BYTES@,
    {
        PaymentParser::new()
    }
}

} // verus!
