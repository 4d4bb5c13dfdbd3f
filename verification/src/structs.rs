//! A plain, extension-free shape of the codec beside the generic one: a
//! non-generic requisite catalogue whose open slot carries its wire key
//! and value as plain text, a builder that seeds the required fields at
//! build time, a pure text rendering, and a strict parser.

use vstd::prelude::*;

verus! {

use crate::error::{Error, ErrorV};
use crate::charset::{decode_body, spec_decode_body};
use crate::header::{
    read_payment_header_bytes, spec_enc_char, spec_parse_header, HeaderV, PaymentEncoding,
    PaymentHeader, FORMAT_ID_BYTES, VERSION_0001_BYTES,
};
use crate::parser::{
    not_utf8_message, spec_validate_required, text_header, text_header_bytes,
};
use crate::payment::{byte_char, body_text, pair_texts, PaymentV, RequiredRequisite};
use crate::requisite::{field_wf, spec_parse_known, FieldV, KnownParse, TechCode};
use crate::string_types::{ExactSizeString, MaxSizeString};
use crate::strutil::{chars_to_string, push_char, str_eq, str_to_chars};
use crate::textmodel::{chunk_kv, join_text, lemma_join_snoc, split_chars, split_chunk_kv, split_text};
use vstd::slice::slice_subrange;
use vstd::string::StringExecFns;

/// One named element of a payment record; the open `Custom` slot carries
/// its wire key and value as plain text.
#[derive(Clone, Debug, PartialEq, Eq)]
pub enum Requisite {
    Name(MaxSizeString<160>),
    PersonalAcc(ExactSizeString<20>),
    BankName(MaxSizeString<45>),
    BIC(ExactSizeString<9>),
    CorrespAcc(MaxSizeString<20>),
    Sum(MaxSizeString<18>),
    Purpose(MaxSizeString<210>),
    PayeeINN(MaxSizeString<12>),
    PayerINN(MaxSizeString<12>),
    DrawerStatus(MaxSizeString<2>),
    KPP(MaxSizeString<9>),
    CBC(MaxSizeString<20>),
    OKTMO(MaxSizeString<11>),
    PaytReason(MaxSizeString<2>),
    TaxPeriod(MaxSizeString<10>),
    DocNo(MaxSizeString<15>),
    DocDate(MaxSizeString<10>),
    TaxPayKind(MaxSizeString<2>),
    LastName(String),
    FirstName(String),
    MiddleName(String),
    PayerAddress(String),
    PersonalAccount(String),
    DocIdx(String),
    PensAcc(String),
    Contract(String),
    PersAcc(String),
    Flat(String),
    Phone(String),
    PayerIdType(String),
    PayerIdNum(String),
    ChildFio(String),
    BirthDate(String),
    PaymTerm(String),
    PaymPeriod(String),
    Category(String),
    ServiceName(String),
    CounterId(String),
    CounterVal(String),
    QuittId(String),
    QuittDate(String),
    InstNum(String),
    ClassNum(String),
    SpecFio(String),
    AddAmount(String),
    RuleId(String),
    ExecId(String),
    RegType(String),
    UIN(String),
    TechCode(TechCode),
    Custom(String, String),
}

impl View for Requisite {
    type V = FieldV;

    open spec fn view(&self) -> FieldV {
        match self {
            Requisite::Name(v) => FieldV::Name(v@),
            Requisite::PersonalAcc(v) => FieldV::PersonalAcc(v@),
            Requisite::BankName(v) => FieldV::BankName(v@),
            Requisite::BIC(v) => FieldV::BIC(v@),
            Requisite::CorrespAcc(v) => FieldV::CorrespAcc(v@),
            Requisite::Sum(v) => FieldV::Sum(v@),
            Requisite::Purpose(v) => FieldV::Purpose(v@),
            Requisite::PayeeINN(v) => FieldV::PayeeINN(v@),
            Requisite::PayerINN(v) => FieldV::PayerINN(v@),
            Requisite::DrawerStatus(v) => FieldV::DrawerStatus(v@),
            Requisite::KPP(v) => FieldV::KPP(v@),
            Requisite::CBC(v) => FieldV::CBC(v@),
            Requisite::OKTMO(v) => FieldV::OKTMO(v@),
            Requisite::PaytReason(v) => FieldV::PaytReason(v@),
            Requisite::TaxPeriod(v) => FieldV::TaxPeriod(v@),
            Requisite::DocNo(v) => FieldV::DocNo(v@),
            Requisite::DocDate(v) => FieldV::DocDate(v@),
            Requisite::TaxPayKind(v) => FieldV::TaxPayKind(v@),
            Requisite::LastName(v) => FieldV::LastName(v@),
            Requisite::FirstName(v) => FieldV::FirstName(v@),
            Requisite::MiddleName(v) => FieldV::MiddleName(v@),
            Requisite::PayerAddress(v) => FieldV::PayerAddress(v@),
            Requisite::PersonalAccount(v) => FieldV::PersonalAccount(v@),
            Requisite::DocIdx(v) => FieldV::DocIdx(v@),
            Requisite::PensAcc(v) => FieldV::PensAcc(v@),
            Requisite::Contract(v) => FieldV::Contract(v@),
            Requisite::PersAcc(v) => FieldV::PersAcc(v@),
            Requisite::Flat(v) => FieldV::Flat(v@),
            Requisite::Phone(v) => FieldV::Phone(v@),
            Requisite::PayerIdType(v) => FieldV::PayerIdType(v@),
            Requisite::PayerIdNum(v) => FieldV::PayerIdNum(v@),
            Requisite::ChildFio(v) => FieldV::ChildFio(v@),
            Requisite::BirthDate(v) => FieldV::BirthDate(v@),
            Requisite::PaymTerm(v) => FieldV::PaymTerm(v@),
            Requisite::PaymPeriod(v) => FieldV::PaymPeriod(v@),
            Requisite::Category(v) => FieldV::Category(v@),
            Requisite::ServiceName(v) => FieldV::ServiceName(v@),
            Requisite::CounterId(v) => FieldV::CounterId(v@),
            Requisite::CounterVal(v) => FieldV::CounterVal(v@),
            Requisite::QuittId(v) => FieldV::QuittId(v@),
            Requisite::QuittDate(v) => FieldV::QuittDate(v@),
            Requisite::InstNum(v) => FieldV::InstNum(v@),
            Requisite::ClassNum(v) => FieldV::ClassNum(v@),
            Requisite::SpecFio(v) => FieldV::SpecFio(v@),
            Requisite::AddAmount(v) => FieldV::AddAmount(v@),
            Requisite::RuleId(v) => FieldV::RuleId(v@),
            Requisite::ExecId(v) => FieldV::ExecId(v@),
            Requisite::RegType(v) => FieldV::RegType(v@),
            Requisite::UIN(v) => FieldV::UIN(v@),
            Requisite::TechCode(tc) => FieldV::TechCode(*tc),
            Requisite::Custom(k, v) => FieldV::Custom(k@, v@),
        }
    }
}

/// The abstract values of a requisite sequence.
pub open spec fn fields_view(reqs: Seq<Requisite>) -> Seq<FieldV> {
    reqs.map_values(|q: Requisite| q@)
}

/// Dispatch of one `(key, value)` pair: known keys construct the
/// matching kind under its constraint, and an unknown key is kept whole
/// in the `Custom` slot.
pub open spec fn spec_parse_pair_open(key: Seq<char>, value: Seq<char>) -> Result<FieldV, ErrorV> {
    match spec_parse_known(key, value) {
        KnownParse::Known(f) => Ok(f),
        KnownParse::Bad(e) => Err(e),
        KnownParse::Unknown => Ok(FieldV::Custom(key, value)),
    }
}

/// What parsing one chunk yields: a chunk without `=` is malformed.
pub open spec fn spec_parse_chunk_open(chunk: Seq<char>) -> Result<FieldV, ErrorV> {
    match chunk_kv(chunk) {
        None => Err(ErrorV::WrongPair(chunk, Seq::empty())),
        Some(kv) => spec_parse_pair_open(kv.0, kv.1),
    }
}

/// Strict reading of the body chunks: the first failing chunk fails the
/// whole decode.
pub open spec fn spec_read_open(chunks: Seq<Seq<char>>) -> Result<Seq<FieldV>, ErrorV>
    decreases chunks.len(),
{
    if chunks.len() == 0 {
        Ok(Seq::empty())
    } else {
        match spec_parse_chunk_open(chunks[0]) {
            Err(e) => Err(e),
            Ok(f) => match spec_read_open(chunks.drop_first()) {
                Err(e) => Err(e),
                Ok(rest) => Ok(seq![f] + rest),
            },
        }
    }
}

impl Requisite {
    /// The size constraint of this requisite's kind holds of its value.
    pub open spec fn wf(&self) -> bool {
        field_wf(self@)
    }

    /// The wire key of this requisite.
    pub fn key(&self) -> (r: &str)
        ensures
            r@ == crate::requisite::field_key(self@),
    {
        match self {
            Requisite::Name(_) => "Name",
            Requisite::PersonalAcc(_) => "PersonalAcc",
            Requisite::BankName(_) => "BankName",
            Requisite::BIC(_) => "BIC",
            Requisite::CorrespAcc(_) => "CorrespAcc",
            Requisite::Sum(_) => "Sum",
            Requisite::Purpose(_) => "Purpose",
            Requisite::PayeeINN(_) => "PayeeINN",
            Requisite::PayerINN(_) => "PayerINN",
            Requisite::DrawerStatus(_) => "DrawerStatus",
            Requisite::KPP(_) => "KPP",
            Requisite::CBC(_) => "CBC",
            Requisite::OKTMO(_) => "OKTMO",
            Requisite::PaytReason(_) => "PaytReason",
            Requisite::TaxPeriod(_) => "TaxPeriod",
            Requisite::DocNo(_) => "DocNo",
            Requisite::DocDate(_) => "DocDate",
            Requisite::TaxPayKind(_) => "TaxPayKind",
            Requisite::LastName(_) => "LastName",
            Requisite::FirstName(_) => "FirstName",
            Requisite::MiddleName(_) => "MiddleName",
            Requisite::PayerAddress(_) => "PayerAddress",
            Requisite::PersonalAccount(_) => "PersonalAccount",
            Requisite::DocIdx(_) => "DocIdx",
            Requisite::PensAcc(_) => "PensAcc",
            Requisite::Contract(_) => "Contract",
            Requisite::PersAcc(_) => "PersAcc",
            Requisite::Flat(_) => "Flat",
            Requisite::Phone(_) => "Phone",
            Requisite::PayerIdType(_) => "PayerIdType",
            Requisite::PayerIdNum(_) => "PayerIdNum",
            Requisite::ChildFio(_) => "ChildFio",
            Requisite::BirthDate(_) => "BirthDate",
            Requisite::PaymTerm(_) => "PaymTerm",
            Requisite::PaymPeriod(_) => "PaymPeriod",
            Requisite::Category(_) => "Category",
            Requisite::ServiceName(_) => "ServiceName",
            Requisite::CounterId(_) => "CounterId",
            Requisite::CounterVal(_) => "CounterVal",
            Requisite::QuittId(_) => "QuittId",
            Requisite::QuittDate(_) => "QuittDate",
            Requisite::InstNum(_) => "InstNum",
            Requisite::ClassNum(_) => "ClassNum",
            Requisite::SpecFio(_) => "SpecFio",
            Requisite::AddAmount(_) => "AddAmount",
            Requisite::RuleId(_) => "RuleId",
            Requisite::ExecId(_) => "ExecId",
            Requisite::RegType(_) => "RegType",
            Requisite::UIN(_) => "UIN",
            Requisite::TechCode(_) => "TechCode",
            Requisite::Custom(k, _) => k.as_str(),
        }
    }

    /// The wire value of this requisite.
    pub fn value(&self) -> (r: &str)
        ensures
            r@ == crate::requisite::field_value(self@),
    {
        match self {
            Requisite::Name(v) => v.as_str(),
            Requisite::PersonalAcc(v) => v.as_str(),
            Requisite::BankName(v) => v.as_str(),
            Requisite::BIC(v) => v.as_str(),
            Requisite::CorrespAcc(v) => v.as_str(),
            Requisite::Sum(v) => v.as_str(),
            Requisite::Purpose(v) => v.as_str(),
            Requisite::PayeeINN(v) => v.as_str(),
            Requisite::PayerINN(v) => v.as_str(),
            Requisite::DrawerStatus(v) => v.as_str(),
            Requisite::KPP(v) => v.as_str(),
            Requisite::CBC(v) => v.as_str(),
            Requisite::OKTMO(v) => v.as_str(),
            Requisite::PaytReason(v) => v.as_str(),
            Requisite::TaxPeriod(v) => v.as_str(),
            Requisite::DocNo(v) => v.as_str(),
            Requisite::DocDate(v) => v.as_str(),
            Requisite::TaxPayKind(v) => v.as_str(),
            Requisite::LastName(v) => v.as_str(),
            Requisite::FirstName(v) => v.as_str(),
            Requisite::MiddleName(v) => v.as_str(),
            Requisite::PayerAddress(v) => v.as_str(),
            Requisite::PersonalAccount(v) => v.as_str(),
            Requisite::DocIdx(v) => v.as_str(),
            Requisite::PensAcc(v) => v.as_str(),
            Requisite::Contract(v) => v.as_str(),
            Requisite::PersAcc(v) => v.as_str(),
            Requisite::Flat(v) => v.as_str(),
            Requisite::Phone(v) => v.as_str(),
            Requisite::PayerIdType(v) => v.as_str(),
            Requisite::PayerIdNum(v) => v.as_str(),
            Requisite::ChildFio(v) => v.as_str(),
            Requisite::BirthDate(v) => v.as_str(),
            Requisite::PaymTerm(v) => v.as_str(),
            Requisite::PaymPeriod(v) => v.as_str(),
            Requisite::Category(v) => v.as_str(),
            Requisite::ServiceName(v) => v.as_str(),
            Requisite::CounterId(v) => v.as_str(),
            Requisite::CounterVal(v) => v.as_str(),
            Requisite::QuittId(v) => v.as_str(),
            Requisite::QuittDate(v) => v.as_str(),
            Requisite::InstNum(v) => v.as_str(),
            Requisite::ClassNum(v) => v.as_str(),
            Requisite::SpecFio(v) => v.as_str(),
            Requisite::AddAmount(v) => v.as_str(),
            Requisite::RuleId(v) => v.as_str(),
            Requisite::ExecId(v) => v.as_str(),
            Requisite::RegType(v) => v.as_str(),
            Requisite::UIN(v) => v.as_str(),
            Requisite::TechCode(tc) => tc.as_str(),
            Requisite::Custom(_, v) => v.as_str(),
        }
    }

    /// Parses one `(key, value)` pair; an unknown key is kept in the
    /// `Custom` slot rather than rejected.
    pub fn try_from_pair(key: &str, value: &str) -> (r: Result<Self, Error>)
        ensures
            match spec_parse_pair_open(key@, value@) {
                Ok(f) => r matches Ok(q) && q@ == f && q.wf(),
                Err(e) => r matches Err(err) && err@ == e,
            },
    {
        if str_eq(key, "Name") {
            match MaxSizeString::<160>::new(value) {
                Some(t) => Ok(Requisite::Name(t)),
                None => Err(Error::WrongPair(key.to_owned(), value.to_owned())),
            }
        } else if str_eq(key, "PersonalAcc") {
            match ExactSizeString::<20>::new(value) {
                Some(t) => Ok(Requisite::PersonalAcc(t)),
                None => Err(Error::WrongPair(key.to_owned(), value.to_owned())),
            }
        } else if str_eq(key, "BankName") {
            match MaxSizeString::<45>::new(value) {
                Some(t) => Ok(Requisite::BankName(t)),
                None => Err(Error::WrongPair(key.to_owned(), value.to_owned())),
            }
        } else if str_eq(key, "BIC") {
            match ExactSizeString::<9>::new(value) {
                Some(t) => Ok(Requisite::BIC(t)),
                None => Err(Error::WrongPair(key.to_owned(), value.to_owned())),
            }
        } else if str_eq(key, "CorrespAcc") {
            match MaxSizeString::<20>::new(value) {
                Some(t) => Ok(Requisite::CorrespAcc(t)),
                None => Err(Error::WrongPair(key.to_owned(), value.to_owned())),
            }
        } else if str_eq(key, "Sum") {
            match MaxSizeString::<18>::new(value) {
                Some(t) => Ok(Requisite::Sum(t)),
                None => Err(Error::WrongPair(key.to_owned(), value.to_owned())),
            }
        } else if str_eq(key, "Purpose") {
            match MaxSizeString::<210>::new(value) {
                Some(t) => Ok(Requisite::Purpose(t)),
                None => Err(Error::WrongPair(key.to_owned(), value.to_owned())),
            }
        } else if str_eq(key, "PayeeINN") {
            match MaxSizeString::<12>::new(value) {
                Some(t) => Ok(Requisite::PayeeINN(t)),
                None => Err(Error::WrongPair(key.to_owned(), value.to_owned())),
            }
        } else if str_eq(key, "PayerINN") {
            match MaxSizeString::<12>::new(value) {
                Some(t) => Ok(Requisite::PayerINN(t)),
                None => Err(Error::WrongPair(key.to_owned(), value.to_owned())),
            }
        } else if str_eq(key, "DrawerStatus") {
            match MaxSizeString::<2>::new(value) {
                Some(t) => Ok(Requisite::DrawerStatus(t)),
                None => Err(Error::WrongPair(key.to_owned(), value.to_owned())),
            }
        } else if str_eq(key, "KPP") {
            match MaxSizeString::<9>::new(value) {
                Some(t) => Ok(Requisite::KPP(t)),
                None => Err(Error::WrongPair(key.to_owned(), value.to_owned())),
            }
        } else if str_eq(key, "CBC") {
            match MaxSizeString::<20>::new(value) {
                Some(t) => Ok(Requisite::CBC(t)),
                None => Err(Error::WrongPair(key.to_owned(), value.to_owned())),
            }
        } else if str_eq(key, "OKTMO") {
            match MaxSizeString::<11>::new(value) {
                Some(t) => Ok(Requisite::OKTMO(t)),
                None => Err(Error::WrongPair(key.to_owned(), value.to_owned())),
            }
        } else if str_eq(key, "PaytReason") {
            match MaxSizeString::<2>::new(value) {
                Some(t) => Ok(Requisite::PaytReason(t)),
                None => Err(Error::WrongPair(key.to_owned(), value.to_owned())),
            }
        } else if str_eq(key, "TaxPeriod") {
            match MaxSizeString::<10>::new(value) {
                Some(t) => Ok(Requisite::TaxPeriod(t)),
                None => Err(Error::WrongPair(key.to_owned(), value.to_owned())),
            }
        } else if str_eq(key, "DocNo") {
            match MaxSizeString::<15>::new(value) {
                Some(t) => Ok(Requisite::DocNo(t)),
                None => Err(Error::WrongPair(key.to_owned(), value.to_owned())),
            }
        } else if str_eq(key, "DocDate") {
            match MaxSizeString::<10>::new(value) {
                Some(t) => Ok(Requisite::DocDate(t)),
                None => Err(Error::WrongPair(key.to_owned(), value.to_owned())),
            }
        } else if str_eq(key, "TaxPayKind") {
            match MaxSizeString::<2>::new(value) {
                Some(t) => Ok(Requisite::TaxPayKind(t)),
                None => Err(Error::WrongPair(key.to_owned(), value.to_owned())),
            }
        } else if str_eq(key, "LastName") {
            Ok(Requisite::LastName(value.to_owned()))
        } else if str_eq(key, "FirstName") {
            Ok(Requisite::FirstName(value.to_owned()))
        } else if str_eq(key, "MiddleName") {
            Ok(Requisite::MiddleName(value.to_owned()))
        } else if str_eq(key, "PayerAddress") {
            Ok(Requisite::PayerAddress(value.to_owned()))
        } else if str_eq(key, "PersonalAccount") {
            Ok(Requisite::PersonalAccount(value.to_owned()))
        } else if str_eq(key, "DocIdx") {
            Ok(Requisite::DocIdx(value.to_owned()))
        } else if str_eq(key, "PensAcc") {
            Ok(Requisite::PensAcc(value.to_owned()))
        } else if str_eq(key, "Contract") {
            Ok(Requisite::Contract(value.to_owned()))
        } else if str_eq(key, "PersAcc") {
            Ok(Requisite::PersAcc(value.to_owned()))
        } else if str_eq(key, "Flat") {
            Ok(Requisite::Flat(value.to_owned()))
        } else if str_eq(key, "Phone") {
            Ok(Requisite::Phone(value.to_owned()))
        } else if str_eq(key, "PayerIdType") {
            Ok(Requisite::PayerIdType(value.to_owned()))
        } else if str_eq(key, "PayerIdNum") {
            Ok(Requisite::PayerIdNum(value.to_owned()))
        } else if str_eq(key, "ChildFio") {
            Ok(Requisite::ChildFio(value.to_owned()))
        } else if str_eq(key, "BirthDate") {
            Ok(Requisite::BirthDate(value.to_owned()))
        } else if str_eq(key, "PaymTerm") {
            Ok(Requisite::PaymTerm(value.to_owned()))
        } else if str_eq(key, "PaymPeriod") {
            Ok(Requisite::PaymPeriod(value.to_owned()))
        } else if str_eq(key, "Category") {
            Ok(Requisite::Category(value.to_owned()))
        } else if str_eq(key, "ServiceName") {
            Ok(Requisite::ServiceName(value.to_owned()))
        } else if str_eq(key, "CounterId") {
            Ok(Requisite::CounterId(value.to_owned()))
        } else if str_eq(key, "CounterVal") {
            Ok(Requisite::CounterVal(value.to_owned()))
        } else if str_eq(key, "QuittId") {
            Ok(Requisite::QuittId(value.to_owned()))
        } else if str_eq(key, "QuittDate") {
            Ok(Requisite::QuittDate(value.to_owned()))
        } else if str_eq(key, "InstNum") {
            Ok(Requisite::InstNum(value.to_owned()))
        } else if str_eq(key, "ClassNum") {
            Ok(Requisite::ClassNum(value.to_owned()))
        } else if str_eq(key, "SpecFio") {
            Ok(Requisite::SpecFio(value.to_owned()))
        } else if str_eq(key, "AddAmount") {
            Ok(Requisite::AddAmount(value.to_owned()))
        } else if str_eq(key, "RuleId") {
            Ok(Requisite::RuleId(value.to_owned()))
        } else if str_eq(key, "ExecId") {
            Ok(Requisite::ExecId(value.to_owned()))
        } else if str_eq(key, "RegType") {
            Ok(Requisite::RegType(value.to_owned()))
        } else if str_eq(key, "UIN") {
            Ok(Requisite::UIN(value.to_owned()))
        } else if str_eq(key, "TechCode") {
            match TechCode::from_str(value) {
                Ok(tc) => Ok(Requisite::TechCode(tc)),
                Err(e) => Err(e),
            }
        } else {
            Ok(Requisite::Custom(key.to_owned(), value.to_owned()))
        }
    }
}


/// A partial strict reading: the fields already taken, continued by what
/// the remaining chunks yield.
pub open spec fn read_open_rest(
    done: Seq<FieldV>,
    rest: Result<Seq<FieldV>, ErrorV>,
) -> Result<Seq<FieldV>, ErrorV> {
    match rest {
        Ok(fs) => Ok(done + fs),
        Err(e) => Err(e),
    }
}

/// Parses one chunk of the body.
fn parse_chunk_open(chunk: &Vec<char>) -> (r: Result<Requisite, Error>)
    ensures
        match spec_parse_chunk_open(chunk@) {
            Ok(f) => r matches Ok(q) && q@ == f && q.wf(),
            Err(e) => r matches Err(err) && err@ == e,
        },
{
    match split_chunk_kv(chunk) {
        None => Err(Error::WrongPair(chars_to_string(chunk.as_slice()), String::new())),
        Some(kv) => Requisite::try_from_pair(kv.0.as_str(), kv.1.as_str()),
    }
}

/// Reads the body chunks; the first failing chunk fails the decode.
fn read_requisites_open(data: &[char], sep: char) -> (r: Result<Vec<Requisite>, Error>)
    ensures
        match r {
            Ok(reqs) => spec_read_open(split_text(data@, sep)) == Ok::<_, ErrorV>(
                fields_view(reqs@),
            ) && crate::parser::fields_wf(fields_view(reqs@)),
            Err(e) => spec_read_open(split_text(data@, sep)) == Err::<Seq<FieldV>, _>(e@),
        },
{
    let chunks = split_chars(data, sep);
    let ghost chunksv = split_text(data@, sep);
    let mut out: Vec<Requisite> = Vec::new();
    let mut i: usize = 0;
    proof {
        assert(chunksv.skip(0) =~= chunksv);
        assert(fields_view(out@) + Seq::<FieldV>::empty() =~= fields_view(out@));
    }
    while i < chunks.len()
        invariant
            0 <= i <= chunks@.len(),
            chunksv == split_text(data@, sep),
            chunks.deep_view() == chunksv,
            chunks@.len() == chunksv.len(),
            crate::parser::fields_wf(fields_view(out@)),
            spec_read_open(chunksv) == read_open_rest(
                fields_view(out@),
                spec_read_open(chunksv.skip(i as int)),
            ),
        decreases chunks@.len() - i,
    {
        let ghost rest = chunksv.skip(i as int);
        proof {
            assert(rest[0] == chunksv[i as int]);
            assert(chunks.deep_view()[i as int] == chunks@[i as int]@);
            assert(rest.drop_first() =~= chunksv.skip(i as int + 1));
        }
        let ghost old_out = fields_view(out@);
        match parse_chunk_open(&chunks[i]) {
            Ok(q) => {
                out.push(q);
                proof {
                    assert(fields_view(out@) =~= old_out.push(q@));
                    match spec_read_open(chunksv.skip(i as int + 1)) {
                        Ok(fs) => {
                            assert(old_out + (seq![q@] + fs) =~= fields_view(out@) + fs);
                        },
                        Err(_) => {},
                    }
                }
            },
            Err(e) => {
                proof {
                    assert(spec_read_open(rest) == Err::<Seq<FieldV>, _>(e@));
                }
                return Err(e);
            },
        }
        i += 1;
    }
    proof {
        assert(chunksv.skip(chunksv.len() as int) =~= Seq::<Seq<char>>::empty());
        assert(fields_view(out@) + Seq::<FieldV>::empty() =~= fields_view(out@));
    }
    Ok(out)
}

/// Checks the required-field order at the front of the decoded sequence.
fn validate_required_open(reqs: &Vec<Requisite>) -> (r: Result<(), Error>)
    ensures
        match r {
            Ok(_) => spec_validate_required(fields_view(reqs@)) is None,
            Err(e) => spec_validate_required(fields_view(reqs@)) == Some(e@),
        },
{
    let ghost fields = fields_view(reqs@);
    if reqs.len() < 1 || !matches!(&reqs[0], Requisite::Name(_)) {
        let passed: String = if reqs.len() >= 1 {
            reqs[0].key().to_owned()
        } else {
            "empty".to_owned()
        };
        return Err(
            Error::WrongRequiredRequisiteOrder { passed, expected: "Name".to_owned() },
        );
    }
    if reqs.len() < 2 || !matches!(&reqs[1], Requisite::PersonalAcc(_)) {
        let passed: String = if reqs.len() >= 2 {
            reqs[1].key().to_owned()
        } else {
            "empty".to_owned()
        };
        return Err(
            Error::WrongRequiredRequisiteOrder { passed, expected: "PersonalAcc".to_owned() },
        );
    }
    if reqs.len() < 3 || !matches!(&reqs[2], Requisite::BankName(_)) {
        let passed: String = if reqs.len() >= 3 {
            reqs[2].key().to_owned()
        } else {
            "empty".to_owned()
        };
        return Err(
            Error::WrongRequiredRequisiteOrder { passed, expected: "BankName".to_owned() },
        );
    }
    if reqs.len() < 4 || !matches!(&reqs[3], Requisite::BIC(_)) {
        let passed: String = if reqs.len() >= 4 {
            reqs[3].key().to_owned()
        } else {
            "empty".to_owned()
        };
        return Err(
            Error::WrongRequiredRequisiteOrder { passed, expected: "BIC".to_owned() },
        );
    }
    if reqs.len() < 5 || !matches!(&reqs[4], Requisite::CorrespAcc(_)) {
        let passed: String = if reqs.len() >= 5 {
            reqs[4].key().to_owned()
        } else {
            "empty".to_owned()
        };
        return Err(
            Error::WrongRequiredRequisiteOrder { passed, expected: "CorrespAcc".to_owned() },
        );
    }
    Ok(())
}

/// The seven header characters that open every rendered payment text.
pub open spec fn header_text(h: HeaderV) -> Seq<char> {
    seq![
        byte_char(h.format_id[0]),
        byte_char(h.format_id[1]),
        byte_char(h.version[0]),
        byte_char(h.version[1]),
        byte_char(h.version[2]),
        byte_char(h.version[3]),
        spec_enc_char(h.encoding),
    ]
}

/// The whole rendered text of a payment: the seven header characters,
/// then for a non-empty field list the separator and the body text. A
/// text rendering never fails: no charset conversion takes place.
pub open spec fn spec_gost_text(p: PaymentV) -> Seq<char> {
    if p.fields.len() == 0 {
        header_text(p.header)
    } else {
        header_text(p.header) + seq![byte_char(p.header.separator)] + body_text(
            p.fields,
            byte_char(p.header.separator),
        )
    }
}

/// What the strict parser of this shape makes of a text payload.
pub open spec fn spec_structs_from_text(text: Seq<char>, version: Seq<u8>) -> Result<
    PaymentV,
    ErrorV,
> {
    match spec_parse_header(text_header_bytes(text), version) {
        Err(e) => Err(e),
        Ok(h) => if !(h.encoding is Utf8) {
            Err(ErrorV::CorruptedHeader(crate::header::msg_text_not_utf8(h.encoding)))
        } else {
            match spec_read_open(split_text(text.skip(8), byte_char(h.separator))) {
                Err(e) => Err(e),
                Ok(fields) => match spec_validate_required(fields) {
                    Some(e) => Err(e),
                    None => Ok(PaymentV { header: h, fields }),
                },
            }
        },
    }
}

/// What the strict parser of this shape makes of a byte payload.
pub open spec fn spec_structs_from_bytes(bytes: Seq<u8>, version: Seq<u8>) -> Result<
    PaymentV,
    ErrorV,
> {
    match spec_parse_header(bytes, version) {
        Err(e) => Err(e),
        Ok(h) => match spec_decode_body(h.encoding, bytes.skip(8)) {
            None => Err(ErrorV::DecodingError),
            Some(data) => match spec_read_open(split_text(data, byte_char(h.separator))) {
                Err(e) => Err(e),
                Ok(fields) => match spec_validate_required(fields) {
                    Some(e) => Err(e),
                    None => Ok(PaymentV { header: h, fields }),
                },
            },
        },
    }
}

/// A payment record of this shape: a header and an ordered requisite
/// sequence.
#[derive(Clone, Debug, PartialEq, Eq)]
pub struct Payment {
    pub(crate) header: PaymentHeader,
    pub(crate) requisites: Vec<Requisite>,
}

impl View for Payment {
    type V = PaymentV;

    open(crate) spec fn view(&self) -> PaymentV {
        PaymentV { header: self.header@, fields: fields_view(self.requisites@) }
    }
}

/// Step-by-step construction of a payment of this shape: additional
/// requisites first, the five required ones handed to `build`, which
/// seeds them in front.
#[derive(Debug)]
pub struct PaymentBuilder {
    pub(crate) payment: Payment,
}

impl View for PaymentBuilder {
    type V = PaymentV;

    open(crate) spec fn view(&self) -> PaymentV {
        self.payment@
    }
}

impl PaymentBuilder {
    /// Replaces the header's version.
    pub fn with_version(self, version: [u8; 4]) -> (r: Self)
        ensures
            r@.header == (HeaderV {
                format_id: self@.header.format_id,
                version: version@,
                encoding: self@.header.encoding,
                separator: self@.header.separator,
            }),
            r@.fields == self@.fields,
    {
        let mut b = self;
        b.payment.header.version = version;
        proof {
            assert(b@.header =~= (HeaderV {
                format_id: self@.header.format_id,
                version: version@,
                encoding: self@.header.encoding,
                separator: self@.header.separator,
            }));
        }
        b
    }

    /// Replaces the header's charset.
    pub fn with_encdoing(self, encdoing: PaymentEncoding) -> (r: Self)
        ensures
            r@.header == (HeaderV {
                format_id: self@.header.format_id,
                version: self@.header.version,
                encoding: encdoing,
                separator: self@.header.separator,
            }),
            r@.fields == self@.fields,
    {
        let mut b = self;
        b.payment.header.encoding = encdoing;
        proof {
            assert(b@.header =~= (HeaderV {
                format_id: self@.header.format_id,
                version: self@.header.version,
                encoding: encdoing,
                separator: self@.header.separator,
            }));
        }
        b
    }

    /// Replaces the separator; only an ASCII character is accepted.
    pub fn with_separator(self, separator: char) -> (r: Self)
        requires
            (separator as u32) < 128,
        ensures
            r@.header == (HeaderV {
                format_id: self@.header.format_id,
                version: self@.header.version,
                encoding: self@.header.encoding,
                separator: (separator as u32) as u8,
            }),
            r@.fields == self@.fields,
    {
        let mut b = self;
        let code: u32 = separator as u32;
        b.payment.header.separator = code as u8;
        proof {
            assert(b@.header =~= (HeaderV {
                format_id: self@.header.format_id,
                version: self@.header.version,
                encoding: self@.header.encoding,
                separator: (separator as u32) as u8,
            }));
        }
        b
    }

    /// Appends additional requisites; none of them may restate one of the
    /// five required kinds.
    pub fn with_additional_requisites(self, requisites: Vec<Requisite>) -> (r: Self)
        requires
            forall|i: int|
                0 <= i < requisites@.len() ==> !crate::requisite::field_is_required(
                    #[trigger] requisites@[i]@,
                ),
        ensures
            r@.header == self@.header,
            r@.fields == self@.fields + fields_view(requisites@),
    {
        let mut b = self;
        let mut rest = requisites;
        b.payment.requisites.append(&mut rest);
        proof {
            assert(fields_view(b.payment.requisites@) =~= self@.fields + fields_view(
                requisites@,
            ));
        }
        b
    }

    /// Seeds the five required requisites in front of what was added and
    /// hands the finished payment out.
    pub fn build(self, requisites: RequiredRequisite) -> (r: Payment)
        ensures
            r@.header == self@.header,
            r@.fields == requisites.spec_fields() + self@.fields,
    {
        let mut reqs: Vec<Requisite> = Vec::new();
        reqs.push(Requisite::Name(requisites.name));
        reqs.push(Requisite::PersonalAcc(requisites.personal_acc));
        reqs.push(Requisite::BankName(requisites.bank_name));
        reqs.push(Requisite::BIC(requisites.bic));
        reqs.push(Requisite::CorrespAcc(requisites.correstp_acc));
        let mut b = self;
        let mut rest = b.payment.requisites;
        reqs.append(&mut rest);
        let r = Payment { header: b.payment.header, requisites: reqs };
        proof {
            assert(r@.fields =~= requisites.spec_fields() + self@.fields);
        }
        r
    }
}

impl Payment {
    /// Starts an empty builder with the default header.
    pub fn builder() -> (r: PaymentBuilder)
        ensures
            r@.header == crate::payment::default_header(),
            r@.fields == Seq::<FieldV>::empty(),
    {
        let header = PaymentHeader {
            format_id: FORMAT_ID_BYTES,
            version: VERSION_0001_BYTES,
            encoding: PaymentEncoding::Utf8,
            separator: 124u8,
        };
        let b = PaymentBuilder { payment: Payment { header, requisites: Vec::new() } };
        proof {
            assert(b@.header =~= crate::payment::default_header());
            assert(b@.fields =~= Seq::<FieldV>::empty());
        }
        b
    }

    /// The strict parser of this shape.
    pub fn parser() -> (r: PaymentParser)
        ensures
            r@ == VERSION_0001_BYTES@,
    {
        PaymentParser { version_id: VERSION_0001_BYTES }
    }

    /// The rendered text of this payment.
    pub fn to_gost_format(&self) -> (r: String)
        ensures
            r@ == spec_gost_text(self@),
    {
        let mut buffer = String::new();
        self.write_to(&mut buffer);
        buffer
    }

    /// Appends the rendered text of this payment to a buffer.
    pub fn write_to(&self, buffer: &mut String)
        ensures
            final(buffer)@ == old(buffer)@ + spec_gost_text(self@),
    {
        let ghost fields = self@.fields;
        let sep_char = self.header.separator as char;
        push_char(buffer, self.header.format_id[0] as char);
        push_char(buffer, self.header.format_id[1] as char);
        push_char(buffer, self.header.version[0] as char);
        push_char(buffer, self.header.version[1] as char);
        push_char(buffer, self.header.version[2] as char);
        push_char(buffer, self.header.version[3] as char);
        push_char(buffer, self.header.encoding.char());
        let ghost hdr_done = old(buffer)@ + header_text(self@.header);
        proof {
            assert(buffer@ =~= hdr_done);
        }
        if self.requisites.len() == 0 {
            proof {
                assert(final(buffer)@ =~= old(buffer)@ + spec_gost_text(self@));
            }
            return ;
        }
        push_char(buffer, sep_char);
        let mut i: usize = 0;
        while i < self.requisites.len()
            invariant
                0 <= i <= self.requisites@.len(),
                fields == fields_view(self.requisites@),
                fields.len() == self.requisites@.len(),
                fields.len() > 0,
                sep_char == byte_char(self@.header.separator),
                hdr_done == old(buffer)@ + header_text(self@.header),
                buffer@ == hdr_done + seq![sep_char] + join_text(
                    pair_texts(fields.take(i as int)),
                    sep_char,
                ),
            decreases self.requisites@.len() - i,
        {
            let ghost done = fields.take(i as int);
            if i > 0 {
                push_char(buffer, sep_char);
            }
            let q = &self.requisites[i];
            buffer.append(q.key());
            push_char(buffer, '=');
            buffer.append(q.value());
            i += 1;
            proof {
                assert(pair_texts(fields.take(i as int)) =~= pair_texts(done).push(
                    crate::payment::pair_text(fields[i - 1]),
                ));
                lemma_join_snoc(pair_texts(done), crate::payment::pair_text(fields[i - 1]), sep_char);
                assert(buffer@ =~= hdr_done + seq![sep_char] + join_text(
                    pair_texts(fields.take(i as int)),
                    sep_char,
                ));
            }
        }
        proof {
            assert(fields.take(fields.len() as int) =~= fields);
            assert(final(buffer)@ =~= old(buffer)@ + spec_gost_text(self@));
        }
    }
}

/// The strict parser of this shape, configured with the version it
/// accepts.
#[derive(Debug)]
pub struct PaymentParser {
    pub(crate) version_id: [u8; 4],
}

impl View for PaymentParser {
    type V = Seq<u8>;

    open(crate) spec fn view(&self) -> Seq<u8> {
        self.version_id@
    }
}

impl PaymentParser {
    /// Replaces the version this parser accepts.
    pub fn with_version(self, version_id: [u8; 4]) -> (r: Self)
        ensures
            r@ == version_id@,
    {
        let mut p = self;
        p.version_id = version_id;
        p
    }

    /// Decodes a payment from text; the header must declare Utf-8.
    pub fn from_str(&self, val: &str) -> (r: Result<Payment, Error>)
        ensures
            match r {
                Ok(p) => spec_structs_from_text(val@, self@) == Ok::<_, ErrorV>(p@)
                    && crate::parser::fields_wf(p@.fields),
                Err(e) => spec_structs_from_text(val@, self@) == Err::<PaymentV, _>(e@),
            },
    {
        let chars = str_to_chars(val);
        let hdr = text_header(&chars);
        let header = match read_payment_header_bytes(hdr.as_slice(), &self.version_id) {
            Ok(h) => h,
            Err(e) => {
                return Err(e);
            },
        };
        if !matches!(header.encoding, PaymentEncoding::Utf8) {
            return Err(Error::CorruptedHeader(not_utf8_message(&header.encoding)));
        }
        let data = slice_subrange(chars.as_slice(), 8, chars.len());
        let sep = header.separator as char;
        let requisites = match read_requisites_open(data, sep) {
            Ok(reqs) => reqs,
            Err(e) => {
                return Err(e);
            },
        };
        match validate_required_open(&requisites) {
            Ok(_) => Ok(Payment { header, requisites }),
            Err(e) => Err(e),
        }
    }

    /// Decodes a payment from raw bytes, with full charset handling.
    pub fn from_bytes(&self, bytes: &[u8]) -> (r: Result<Payment, Error>)
        ensures
            match r {
                Ok(p) => spec_structs_from_bytes(bytes@, self@) == Ok::<_, ErrorV>(p@)
                    && crate::parser::fields_wf(p@.fields),
                Err(e) => spec_structs_from_bytes(bytes@, self@) == Err::<PaymentV, _>(e@),
            },
    {
        let header = match read_payment_header_bytes(bytes, &self.version_id) {
            Ok(h) => h,
            Err(e) => {
                return Err(e);
            },
        };
        let body = slice_subrange(bytes, 8, bytes.len());
        let data = match decode_body(header.encoding, body) {
            Ok(s) => s,
            Err(e) => {
                return Err(e);
            },
        };
        let data = str_to_chars(data.as_str());
        let sep = header.separator as char;
        let requisites = match read_requisites_open(data.as_slice(), sep) {
            Ok(reqs) => reqs,
            Err(e) => {
                return Err(e);
            },
        };
        match validate_required_open(&requisites) {
            Ok(_) => Ok(Payment { header, requisites }),
            Err(e) => Err(e),
        }
    }
}

} // verus!
