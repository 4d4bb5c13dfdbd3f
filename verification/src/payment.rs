//! The payment aggregate and its builder: an ordered field list behind a
//! fixed header, a lookup by wire key, and the encoding of the whole into
//! wire bytes.

use vstd::prelude::*;

verus! {

use crate::charset::{
    encode_body, spec_encode_body, utf8_decode_lossy, utf8_decoded_lossy,
};
use crate::custom::{CustomRequisites, NoCustomRequisites};
use crate::error::Error;
use crate::header::{
    HeaderV, PaymentEncoding, PaymentHeader, spec_enc_code, FORMAT_ID_BYTES, VERSION_0001_BYTES,
};
use crate::requisite::{field_is_required, field_key, field_value, FieldV, Requisite};
use crate::string_types::{ExactSizeString, MaxSizeString};
use crate::strutil::{push_char, str_eq};
use crate::textmodel::{join_text, lemma_join_snoc};
use vstd::utf8::{decode_utf8, valid_utf8};

/// The character a separator byte stands for when the body is split.
pub open spec fn byte_char(b: u8) -> char {
    (b as u32) as char
}

/// The wire text of one field: its key and value joined by `=`.
pub open spec fn pair_text(f: FieldV) -> Seq<char> {
    field_key(f) + seq!['='] + field_value(f)
}

/// The wire texts of a field sequence.
pub open spec fn pair_texts(fields: Seq<FieldV>) -> Seq<Seq<char>> {
    fields.map_values(|f: FieldV| pair_text(f))
}

/// The body text of a payment: its pairs joined by the separator.
pub open spec fn body_text(fields: Seq<FieldV>, sep: char) -> Seq<char> {
    join_text(pair_texts(fields), sep)
}

/// The abstract values of a requisite sequence.
pub open spec fn fields_of<T: CustomRequisites>(reqs: Seq<Requisite<T>>) -> Seq<FieldV> {
    reqs.map_values(|q: Requisite<T>| q@)
}

/// The seven header bytes that open every payload.
pub open spec fn header_bytes(h: HeaderV) -> Seq<u8> {
    seq![
        h.format_id[0],
        h.format_id[1],
        h.version[0],
        h.version[1],
        h.version[2],
        h.version[3],
        spec_enc_code(h.encoding),
    ]
}

/// The whole wire payload of a payment: the seven header bytes, then for
/// a non-empty field list the separator and the charset encoding of the
/// body text. Nothing, where some character cannot be represented in the
/// charset.
pub open spec fn spec_payment_bytes(p: PaymentV) -> Option<Seq<u8>> {
    if p.fields.len() == 0 {
        Some(header_bytes(p.header))
    } else {
        match spec_encode_body(
            p.header.encoding,
            body_text(p.fields, byte_char(p.header.separator)),
        ) {
            Some(bb) => Some(header_bytes(p.header) + seq![p.header.separator] + bb),
            None => None,
        }
    }
}

/// The first value whose field carries the given wire key.
pub open spec fn spec_get(fields: Seq<FieldV>, key: Seq<char>) -> Option<Seq<char>>
    decreases fields.len(),
{
    if fields.len() == 0 {
        None
    } else if field_key(fields[0]) == key {
        Some(field_value(fields[0]))
    } else {
        spec_get(fields.drop_first(), key)
    }
}

/// The header of every freshly built payment: the fixed marker, the
/// default version, Utf-8, and `|` as separator.
pub open spec fn default_header() -> HeaderV {
    HeaderV {
        format_id: FORMAT_ID_BYTES@,
        version: VERSION_0001_BYTES@,
        encoding: PaymentEncoding::Utf8,
        separator: 124u8,
    }
}

/// The abstract value of a [`Payment`]: its header and the abstract
/// values of its fields, in order.
#[verifier::ext_equal]
pub struct PaymentV {
    pub header: HeaderV,
    pub fields: Seq<FieldV>,
}

/// A payment record: a header and an ordered sequence of requisites.
/// Values are immutable once built, by a builder or by a parser.
#[derive(Clone, Debug, PartialEq, Eq)]
pub struct Payment<T: CustomRequisites = NoCustomRequisites> {
    pub(crate) header: PaymentHeader,
    pub(crate) requisites: Vec<Requisite<T>>,
}

impl<T: CustomRequisites> View for Payment<T> {
    type V = PaymentV;

    open(crate) spec fn view(&self) -> PaymentV {
        PaymentV { header: self.header@, fields: fields_of(self.requisites@) }
    }
}

/// The five required requisites every payment must open with.
#[derive(Clone, Debug, PartialEq, Eq)]
pub struct RequiredRequisite {
    pub name: MaxSizeString<160>,
    pub personal_acc: ExactSizeString<20>,
    pub bank_name: MaxSizeString<45>,
    pub bic: ExactSizeString<9>,
    pub correstp_acc: MaxSizeString<20>,
}

impl RequiredRequisite {
    /// The field sequence this record seeds a payment with.
    pub open spec fn spec_fields(&self) -> Seq<FieldV> {
        seq![
            FieldV::Name(self.name@),
            FieldV::PersonalAcc(self.personal_acc@),
            FieldV::BankName(self.bank_name@),
            FieldV::BIC(self.bic@),
            FieldV::CorrespAcc(self.correstp_acc@),
        ]
    }
}

/// Step-by-step construction of a payment. The builder seeds the five
/// required fields first, so the ordering invariant holds by
/// construction, and refuses any additional field that restates a
/// required kind.
#[derive(Debug)]
pub struct PaymentBuilder<T: CustomRequisites = NoCustomRequisites> {
    pub(crate) payment: Payment<T>,
}

impl<T: CustomRequisites> View for PaymentBuilder<T> {
    type V = PaymentV;

    open(crate) spec fn view(&self) -> PaymentV {
        self.payment@
    }
}

impl<T: CustomRequisites> PaymentBuilder<T> {
    /// Replaces the header's version.
    pub fn with_version(self, version: [u8; 4]) -> (r: Self)
        ensures
            r@.header == (HeaderV {
                format_id: self@.header.format_id,
                version: version@,
                encoding: self@.header.encoding,
                separator: self@.header.separator,
            }),
            r@.fields == self@.fields,
    {
        let mut b = self;
        b.payment.header.version = version;
        proof {
            assert(b@.header =~= (HeaderV {
                format_id: self@.header.format_id,
                version: version@,
                encoding: self@.header.encoding,
                separator: self@.header.separator,
            }));
        }
        b
    }

    /// Replaces the header's charset.
    pub fn with_encdoing(self, encdoing: PaymentEncoding) -> (r: Self)
        ensures
            r@.header == (HeaderV {
                format_id: self@.header.format_id,
                version: self@.header.version,
                encoding: encdoing,
                separator: self@.header.separator,
            }),
            r@.fields == self@.fields,
    {
        let mut b = self;
        b.payment.header.encoding = encdoing;
        proof {
            assert(b@.header =~= (HeaderV {
                format_id: self@.header.format_id,
                version: self@.header.version,
                encoding: encdoing,
                separator: self@.header.separator,
            }));
        }
        b
    }

    /// Replaces the separator; only an ASCII character is accepted.
    pub fn with_separator(self, separator: char) -> (r: Self)
        requires
            (separator as u32) < 128,
        ensures
            r@.header == (HeaderV {
                format_id: self@.header.format_id,
                version: self@.header.version,
                encoding: self@.header.encoding,
                separator: (separator as u32) as u8,
            }),
            r@.fields == self@.fields,
    {
        let mut b = self;
        let code: u32 = separator as u32;
        b.payment.header.separator = code as u8;
        proof {
            assert(b@.header =~= (HeaderV {
                format_id: self@.header.format_id,
                version: self@.header.version,
                encoding: self@.header.encoding,
                separator: (separator as u32) as u8,
            }));
        }
        b
    }

    /// Appends additional requisites; none of them may restate one of the
    /// five required kinds.
    pub fn with_additional_requisites(self, requisites: Vec<Requisite<T>>) -> (r: Self)
        requires
            forall|i: int|
                0 <= i < requisites@.len() ==> !field_is_required(#[trigger] requisites@[i]@),
        ensures
            r@.header == self@.header,
            r@.fields == self@.fields + fields_of(requisites@),
    {
        let mut b = self;
        let mut rest = requisites;
        b.payment.requisites.append(&mut rest);
        proof {
            assert(fields_of(b.payment.requisites@) =~= self@.fields + fields_of(requisites@));
        }
        b
    }

    /// Hands the finished payment out.
    pub fn build(self) -> (r: Payment<T>)
        ensures
            r@ == self@,
    {
        self.payment
    }
}

impl Payment {
    /// Starts a builder from the five required requisites.
    pub fn builder(requisites: RequiredRequisite) -> (r: PaymentBuilder<NoCustomRequisites>)
        ensures
            r@.header == default_header(),
            r@.fields == requisites.spec_fields(),
    {
        Payment::<NoCustomRequisites>::custom_builder(requisites)
    }
}

impl<T: CustomRequisites> Payment<T> {
    /// Starts a builder from the five required requisites, for payments
    /// carrying host-supplied requisites.
    pub fn custom_builder(requisites: RequiredRequisite) -> (r: PaymentBuilder<T>)
        ensures
            r@.header == default_header(),
            r@.fields == requisites.spec_fields(),
    {
        let header = PaymentHeader {
            format_id: FORMAT_ID_BYTES,
            version: VERSION_0001_BYTES,
            encoding: PaymentEncoding::Utf8,
            separator: 124u8,
        };
        let mut reqs: Vec<Requisite<T>> = Vec::new();
        reqs.push(Requisite::Name(requisites.name));
        reqs.push(Requisite::PersonalAcc(requisites.personal_acc));
        reqs.push(Requisite::BankName(requisites.bank_name));
        reqs.push(Requisite::BIC(requisites.bic));
        reqs.push(Requisite::CorrespAcc(requisites.correstp_acc));
        let b = PaymentBuilder { payment: Payment { header, requisites: reqs } };
        proof {
            assert(b@.header =~= default_header());
            assert(b@.fields =~= requisites.spec_fields());
        }
        b
    }

    /// The wire payload of this payment.
    pub fn to_bytes(&self) -> (r: Result<Vec<u8>, Error>)
        ensures
            match r {
                Ok(v) => spec_payment_bytes(self@) == Some(v@),
                Err(e) => spec_payment_bytes(self@) is None && e == Error::EncodingError,
            },
    {
        let mut buffer: Vec<u8> = Vec::new();
        match self.write_to(&mut buffer) {
            Ok(_) => Ok(buffer),
            Err(e) => Err(e),
        }
    }

    /// Appends the wire payload of this payment to a buffer. On failure
    /// the buffer is left as it was.
    pub fn write_to(&self, buffer: &mut Vec<u8>) -> (r: Result<(), Error>)
        ensures
            match r {
                Ok(_) => spec_payment_bytes(self@) matches Some(b)
                    && final(buffer)@ == old(buffer)@ + b,
                Err(e) => spec_payment_bytes(self@) is None && e == Error::EncodingError
                    && final(buffer)@ == old(buffer)@,
            },
    {
        let ghost fields = self@.fields;
        let sep_char = self.separator_char();
        let body_bytes: Option<Vec<u8>> = if self.requisites.len() == 0 {
            None
        } else {
            let mut body = String::new();
            let mut i: usize = 0;
            while i < self.requisites.len()
                invariant
                    0 <= i <= self.requisites@.len(),
                    fields == fields_of(self.requisites@),
                    fields.len() == self.requisites@.len(),
                    body@ == join_text(pair_texts(fields.take(i as int)), sep_char),
                decreases self.requisites@.len() - i,
            {
                let ghost done = fields.take(i as int);
                if i > 0 {
                    push_char(&mut body, sep_char);
                }
                let q = &self.requisites[i];
                body.append(q.key());
                push_char(&mut body, '=');
                body.append(q.value());
                i += 1;
                proof {
                    assert(pair_texts(fields.take(i as int)) =~= pair_texts(done).push(
                        pair_text(fields[i - 1]),
                    ));
                    lemma_join_snoc(pair_texts(done), pair_text(fields[i - 1]), sep_char);
                    assert(body@ =~= join_text(pair_texts(fields.take(i as int)), sep_char));
                }
            }
            proof {
                assert(fields.take(fields.len() as int) =~= fields);
            }
            match encode_body(self.header.encoding, body.as_str()) {
                Ok(v) => Some(v),
                Err(e) => {
                    return Err(e);
                },
            }
        };
        buffer.push(self.header.format_id[0]);
        buffer.push(self.header.format_id[1]);
        buffer.push(self.header.version[0]);
        buffer.push(self.header.version[1]);
        buffer.push(self.header.version[2]);
        buffer.push(self.header.version[3]);
        buffer.push(self.header.encoding.code());
        match body_bytes {
            None => {
                proof {
                    assert(final(buffer)@ =~= old(buffer)@ + header_bytes(self@.header));
                }
                Ok(())
            },
            Some(bb) => {
                buffer.push(self.header.separator);
                let mut bb = bb;
                let ghost bbv = bb@;
                buffer.append(&mut bb);
                proof {
                    assert(final(buffer)@ =~= old(buffer)@ + (header_bytes(self@.header) + seq![
                        self@.header.separator,
                    ] + bbv));
                }
                Ok(())
            },
        }
    }

    /// The wire payload rendered as text: a best-effort lossy Utf-8
    /// reading of the payload bytes.
    pub fn to_utf8_lossy(&self) -> (r: Result<String, Error>)
        ensures
            match r {
                Ok(s) => spec_payment_bytes(self@) matches Some(b) && s@ == utf8_decoded_lossy(b)
                    && (valid_utf8(b) ==> s@ == decode_utf8(b)),
                Err(e) => spec_payment_bytes(self@) is None && e == Error::EncodingError,
            },
    {
        match self.to_bytes() {
            Ok(bytes) => Ok(utf8_decode_lossy(bytes.as_slice())),
            Err(e) => Err(e),
        }
    }

    /// The value of the first field whose wire key matches; duplicates
    /// after the first are not seen.
    pub fn get(&self, key: &str) -> (r: Option<&str>)
        ensures
            match r {
                Some(s) => spec_get(self@.fields, key@) == Some(s@),
                None => spec_get(self@.fields, key@) is None,
            },
    {
        let ghost fields = self@.fields;
        proof {
            assert(fields.skip(0) =~= fields);
        }
        let mut i: usize = 0;
        while i < self.requisites.len()
            invariant
                0 <= i <= self.requisites@.len(),
                fields == fields_of(self.requisites@),
                fields.len() == self.requisites@.len(),
                spec_get(fields, key@) == spec_get(fields.skip(i as int), key@),
            decreases self.requisites@.len() - i,
        {
            let ghost rest = fields.skip(i as int);
            let q = &self.requisites[i];
            proof {
                assert(rest.len() > 0);
                assert(rest[0] == fields[i as int]);
            }
            if str_eq(q.key(), key) {
                return Some(q.value());
            }
            i += 1;
            proof {
                assert(rest.drop_first() =~= fields.skip(i as int));
            }
        }
        proof {
            assert(fields.skip(fields.len() as int) =~= Seq::<FieldV>::empty());
        }
        None
    }

    /// The header of this payment.
    pub fn header(&self) -> (r: &PaymentHeader)
        ensures
            r@ == self@.header,
    {
        &self.header
    }

    /// The requisites of this payment, in order.
    pub fn requisites(&self) -> (r: &Vec<Requisite<T>>)
        ensures
            r@.len() == self@.fields.len(),
            forall|i: int| 0 <= i < r@.len() ==> (#[trigger] r@[i])@ == self@.fields[i],
    {
        &self.requisites
    }

    /// The separator of this payment's header, as the character the body
    /// is split and joined on.
    pub fn separator_char(&self) -> (r: char)
        ensures
            r == byte_char(self@.header.separator),
    {
        self.header.separator as char
    }
}

} // verus!
