//! The field dictionary: the closed catalogue of payment requisites, the
//! technical-code enumeration, and the parsing of one `Key=Value` pair.

use vstd::prelude::*;

verus! {

use crate::custom::CustomRequisites;
use crate::error::{Error, ErrorV};
use crate::string_types::{ExactSizeString, MaxSizeString};
use crate::strutil::str_eq;

/// Closed two-digit classification of the payment's purpose.
#[derive(Clone, Copy, Debug, PartialEq, Eq)]
pub enum TechCode {
    Mobile,
    HousingAndUtilites,
    Taxes,
    SecurityServices,
    FMS,
    PFR,
    LoanRepayments,
    EducationalInstitutions,
    InternetTV,
    Emoney,
    Vacation,
    InvestmentInsurance,
    SportHealth,
    Charity,
    Other,
}

/// The fixed two-digit wire string of a technical code.
pub open spec fn spec_tech_str(tc: TechCode) -> Seq<char> {
    match tc {
        TechCode::Mobile => "01"@,
        TechCode::HousingAndUtilites => "02"@,
        TechCode::Taxes => "03"@,
        TechCode::SecurityServices => "04"@,
        TechCode::FMS => "05"@,
        TechCode::PFR => "06"@,
        TechCode::LoanRepayments => "07"@,
        TechCode::EducationalInstitutions => "08"@,
        TechCode::InternetTV => "09"@,
        TechCode::Emoney => "10"@,
        TechCode::Vacation => "11"@,
        TechCode::InvestmentInsurance => "12"@,
        TechCode::SportHealth => "13"@,
        TechCode::Charity => "14"@,
        TechCode::Other => "15"@,
    }
}

/// The inverse direction of the two-digit mapping: no string outside
/// `"01"`..`"15"` names a technical code.
pub open spec fn spec_tech_from(val: Seq<char>) -> Option<TechCode> {
    if val == "01"@ {
        Some(TechCode::Mobile)
    } else if val == "02"@ {
        Some(TechCode::HousingAndUtilites)
    } else if val == "03"@ {
        Some(TechCode::Taxes)
    } else if val == "04"@ {
        Some(TechCode::SecurityServices)
    } else if val == "05"@ {
        Some(TechCode::FMS)
    } else if val == "06"@ {
        Some(TechCode::PFR)
    } else if val == "07"@ {
        Some(TechCode::LoanRepayments)
    } else if val == "08"@ {
        Some(TechCode::EducationalInstitutions)
    } else if val == "09"@ {
        Some(TechCode::InternetTV)
    } else if val == "10"@ {
        Some(TechCode::Emoney)
    } else if val == "11"@ {
        Some(TechCode::Vacation)
    } else if val == "12"@ {
        Some(TechCode::InvestmentInsurance)
    } else if val == "13"@ {
        Some(TechCode::SportHealth)
    } else if val == "14"@ {
        Some(TechCode::Charity)
    } else if val == "15"@ {
        Some(TechCode::Other)
    } else {
        None
    }
}

impl TechCode {
    /// The fixed two-digit wire string of this code.
    pub fn as_str(&self) -> (r: &str)
        ensures
            r@ == spec_tech_str(*self),
    {
        match self {
            TechCode::Mobile => "01",
            TechCode::HousingAndUtilites => "02",
            TechCode::Taxes => "03",
            TechCode::SecurityServices => "04",
            TechCode::FMS => "05",
            TechCode::PFR => "06",
            TechCode::LoanRepayments => "07",
            TechCode::EducationalInstitutions => "08",
            TechCode::InternetTV => "09",
            TechCode::Emoney => "10",
            TechCode::Vacation => "11",
            TechCode::InvestmentInsurance => "12",
            TechCode::SportHealth => "13",
            TechCode::Charity => "14",
            TechCode::Other => "15",
        }
    }

    /// Reads a technical code back from its wire string.
    pub fn from_str(val: &str) -> (r: Result<TechCode, Error>)
        ensures
            match r {
                Ok(tc) => spec_tech_from(val@) == Some(tc),
                Err(e) => spec_tech_from(val@) is None && e@ == ErrorV::UnknownTechCode(val@),
            },
    {
        if str_eq(val, "01") {
            Ok(TechCode::Mobile)
        } else if str_eq(val, "02") {
            Ok(TechCode::HousingAndUtilites)
        } else if str_eq(val, "03") {
            Ok(TechCode::Taxes)
        } else if str_eq(val, "04") {
            Ok(TechCode::SecurityServices)
        } else if str_eq(val, "05") {
            Ok(TechCode::FMS)
        } else if str_eq(val, "06") {
            Ok(TechCode::PFR)
        } else if str_eq(val, "07") {
            Ok(TechCode::LoanRepayments)
        } else if str_eq(val, "08") {
            Ok(TechCode::EducationalInstitutions)
        } else if str_eq(val, "09") {
            Ok(TechCode::InternetTV)
        } else if str_eq(val, "10") {
            Ok(TechCode::Emoney)
        } else if str_eq(val, "11") {
            Ok(TechCode::Vacation)
        } else if str_eq(val, "12") {
            Ok(TechCode::InvestmentInsurance)
        } else if str_eq(val, "13") {
            Ok(TechCode::SportHealth)
        } else if str_eq(val, "14") {
            Ok(TechCode::Charity)
        } else if str_eq(val, "15") {
            Ok(TechCode::Other)
        } else {
            Err(Error::UnknownTechCode(val.to_owned()))
        }
    }
}

/// The two-digit mapping is a bijection between the fifteen codes and
/// their strings: reading a code's string back yields the same code.
pub proof fn lemma_tech_roundtrip(tc: TechCode)
    ensures
        spec_tech_from(spec_tech_str(tc)) == Some(tc),
{
    broadcast use vstd::string::group_string_axioms;

    reveal_strlit("01");
    reveal_strlit("02");
    reveal_strlit("03");
    reveal_strlit("04");
    reveal_strlit("05");
    reveal_strlit("06");
    reveal_strlit("07");
    reveal_strlit("08");
    reveal_strlit("09");
    reveal_strlit("10");
    reveal_strlit("11");
    reveal_strlit("12");
    reveal_strlit("13");
    reveal_strlit("14");
    reveal_strlit("15");
    assert("01"@.len() == 2 && "01"@[0] == '0' && "01"@[1] == '1');
    assert("02"@.len() == 2 && "02"@[0] == '0' && "02"@[1] == '2');
    assert("03"@.len() == 2 && "03"@[0] == '0' && "03"@[1] == '3');
    assert("04"@.len() == 2 && "04"@[0] == '0' && "04"@[1] == '4');
    assert("05"@.len() == 2 && "05"@[0] == '0' && "05"@[1] == '5');
    assert("06"@.len() == 2 && "06"@[0] == '0' && "06"@[1] == '6');
    assert("07"@.len() == 2 && "07"@[0] == '0' && "07"@[1] == '7');
    assert("08"@.len() == 2 && "08"@[0] == '0' && "08"@[1] == '8');
    assert("09"@.len() == 2 && "09"@[0] == '0' && "09"@[1] == '9');
    assert("10"@.len() == 2 && "10"@[0] == '1' && "10"@[1] == '0');
    assert("11"@.len() == 2 && "11"@[0] == '1' && "11"@[1] == '1');
    assert("12"@.len() == 2 && "12"@[0] == '1' && "12"@[1] == '2');
    assert("13"@.len() == 2 && "13"@[0] == '1' && "13"@[1] == '3');
    assert("14"@.len() == 2 && "14"@[0] == '1' && "14"@[1] == '4');
    assert("15"@.len() == 2 && "15"@[0] == '1' && "15"@[1] == '5');
    match tc {
        TechCode::Mobile => assert(spec_tech_from("01"@) == Some(TechCode::Mobile)),
        TechCode::HousingAndUtilites => assert(spec_tech_from("02"@) == Some(
            TechCode::HousingAndUtilites,
        )),
        TechCode::Taxes => assert(spec_tech_from("03"@) == Some(TechCode::Taxes)),
        TechCode::SecurityServices => assert(spec_tech_from("04"@) == Some(
            TechCode::SecurityServices,
        )),
        TechCode::FMS => assert(spec_tech_from("05"@) == Some(TechCode::FMS)),
        TechCode::PFR => assert(spec_tech_from("06"@) == Some(TechCode::PFR)),
        TechCode::LoanRepayments => assert(spec_tech_from("07"@) == Some(TechCode::LoanRepayments)),
        TechCode::EducationalInstitutions => assert(spec_tech_from("08"@) == Some(
            TechCode::EducationalInstitutions,
        )),
        TechCode::InternetTV => assert(spec_tech_from("09"@) == Some(TechCode::InternetTV)),
        TechCode::Emoney => assert(spec_tech_from("10"@) == Some(TechCode::Emoney)),
        TechCode::Vacation => assert(spec_tech_from("11"@) == Some(TechCode::Vacation)),
        TechCode::InvestmentInsurance => assert(spec_tech_from("12"@) == Some(
            TechCode::InvestmentInsurance,
        )),
        TechCode::SportHealth => assert(spec_tech_from("13"@) == Some(TechCode::SportHealth)),
        TechCode::Charity => assert(spec_tech_from("14"@) == Some(TechCode::Charity)),
        TechCode::Other => assert(spec_tech_from("15"@) == Some(TechCode::Other)),
    }
}

/// One named element of a payment record. Five kinds are required and must
/// open every payment; the rest are additional. The `Custom` slot carries
/// a host-supplied kind through the extension point.
#[derive(Clone, Debug, PartialEq, Eq)]
pub enum Requisite<T: CustomRequisites> {
    /// Payee name.
    Name(MaxSizeString<160>),
    /// Payee account number.
    PersonalAcc(ExactSizeString<20>),
    /// Payee bank name.
    BankName(MaxSizeString<45>),
    /// Payee bank identification code.
    BIC(ExactSizeString<9>),
    /// Payee bank correspondent account.
    CorrespAcc(MaxSizeString<20>),
    /// Payment amount, in kopecks.
    Sum(MaxSizeString<18>),
    /// Payment purpose.
    Purpose(MaxSizeString<210>),
    /// Payee taxpayer number.
    PayeeINN(MaxSizeString<12>),
    /// Payer taxpayer number.
    PayerINN(MaxSizeString<12>),
    /// Status of the document's drawer.
    DrawerStatus(MaxSizeString<2>),
    /// Payee registration reason code.
    KPP(MaxSizeString<9>),
    /// Budget classification code.
    CBC(MaxSizeString<20>),
    /// Municipal territory classifier code.
    OKTMO(MaxSizeString<11>),
    /// Tax payment reason.
    PaytReason(MaxSizeString<2>),
    /// Tax period.
    TaxPeriod(MaxSizeString<10>),
    /// Document number.
    DocNo(MaxSizeString<15>),
    /// Document date.
    DocDate(MaxSizeString<10>),
    /// Tax payment kind.
    TaxPayKind(MaxSizeString<2>),
    /// Payer last name.
    LastName(String),
    /// Payer first name.
    FirstName(String),
    /// Payer middle name.
    MiddleName(String),
    /// Payer address.
    PayerAddress(String),
    /// Budget payee personal account.
    PersonalAccount(String),
    /// Payment document index.
    DocIdx(String),
    /// Payer pension insurance account.
    PensAcc(String),
    /// Contract number.
    Contract(String),
    /// Payer account in the service organization.
    PersAcc(String),
    /// Flat number.
    Flat(String),
    /// Phone number.
    Phone(String),
    /// Payer identity document kind.
    PayerIdType(String),
    /// Payer identity document number.
    PayerIdNum(String),
    /// Child or student full name.
    ChildFio(String),
    /// Birth date.
    BirthDate(String),
    /// Payment term or billing date.
    PaymTerm(String),
    /// Payment period.
    PaymPeriod(String),
    /// Payment category.
    Category(String),
    /// Service code or metering device name.
    ServiceName(String),
    /// Metering device number.
    CounterId(String),
    /// Metering device reading.
    CounterVal(String),
    /// Notification or invoice number.
    QuittId(String),
    /// Notification or invoice date.
    QuittDate(String),
    /// Institution number.
    InstNum(String),
    /// Kindergarten group or school class number.
    ClassNum(String),
    /// Teacher or specialist full name.
    SpecFio(String),
    /// Insurance, extra-service or penalty amount, in kopecks.
    AddAmount(String),
    /// Resolution number.
    RuleId(String),
    /// Enforcement proceedings number.
    ExecId(String),
    /// Payment kind code.
    RegType(String),
    /// Unique accrual identifier.
    UIN(String),
    /// Technical code of the payment.
    TechCode(TechCode),
    /// A host-supplied requisite behind the extension point.
    Custom(T),
}

/// The abstract value of a requisite: the same catalogue over character
/// sequences. A custom field is seen through its wire key and value.
pub enum FieldV {
    Name(Seq<char>),
    PersonalAcc(Seq<char>),
    BankName(Seq<char>),
    BIC(Seq<char>),
    CorrespAcc(Seq<char>),
    Sum(Seq<char>),
    Purpose(Seq<char>),
    PayeeINN(Seq<char>),
    PayerINN(Seq<char>),
    DrawerStatus(Seq<char>),
    KPP(Seq<char>),
    CBC(Seq<char>),
    OKTMO(Seq<char>),
    PaytReason(Seq<char>),
    TaxPeriod(Seq<char>),
    DocNo(Seq<char>),
    DocDate(Seq<char>),
    TaxPayKind(Seq<char>),
    LastName(Seq<char>),
    FirstName(Seq<char>),
    MiddleName(Seq<char>),
    PayerAddress(Seq<char>),
    PersonalAccount(Seq<char>),
    DocIdx(Seq<char>),
    PensAcc(Seq<char>),
    Contract(Seq<char>),
    PersAcc(Seq<char>),
    Flat(Seq<char>),
    Phone(Seq<char>),
    PayerIdType(Seq<char>),
    PayerIdNum(Seq<char>),
    ChildFio(Seq<char>),
    BirthDate(Seq<char>),
    PaymTerm(Seq<char>),
    PaymPeriod(Seq<char>),
    Category(Seq<char>),
    ServiceName(Seq<char>),
    CounterId(Seq<char>),
    CounterVal(Seq<char>),
    QuittId(Seq<char>),
    QuittDate(Seq<char>),
    InstNum(Seq<char>),
    ClassNum(Seq<char>),
    SpecFio(Seq<char>),
    AddAmount(Seq<char>),
    RuleId(Seq<char>),
    ExecId(Seq<char>),
    RegType(Seq<char>),
    UIN(Seq<char>),
    TechCode(TechCode),
    Custom(Seq<char>, Seq<char>),
}

/// The wire key of a field: the mapping over the built-in catalogue is
/// total and injective; a custom field names its own key.
pub open spec fn field_key(f: FieldV) -> Seq<char> {
    match f {
        FieldV::Name(_) => "Name"@,
        FieldV::PersonalAcc(_) => "PersonalAcc"@,
        FieldV::BankName(_) => "BankName"@,
        FieldV::BIC(_) => "BIC"@,
        FieldV::CorrespAcc(_) => "CorrespAcc"@,
        FieldV::Sum(_) => "Sum"@,
        FieldV::Purpose(_) => "Purpose"@,
        FieldV::PayeeINN(_) => "PayeeINN"@,
        FieldV::PayerINN(_) => "PayerINN"@,
        FieldV::DrawerStatus(_) => "DrawerStatus"@,
        FieldV::KPP(_) => "KPP"@,
        FieldV::CBC(_) => "CBC"@,
        FieldV::OKTMO(_) => "OKTMO"@,
        FieldV::PaytReason(_) => "PaytReason"@,
        FieldV::TaxPeriod(_) => "TaxPeriod"@,
        FieldV::DocNo(_) => "DocNo"@,
        FieldV::DocDate(_) => "DocDate"@,
        FieldV::TaxPayKind(_) => "TaxPayKind"@,
        FieldV::LastName(_) => "LastName"@,
        FieldV::FirstName(_) => "FirstName"@,
        FieldV::MiddleName(_) => "MiddleName"@,
        FieldV::PayerAddress(_) => "PayerAddress"@,
        FieldV::PersonalAccount(_) => "PersonalAccount"@,
        FieldV::DocIdx(_) => "DocIdx"@,
        FieldV::PensAcc(_) => "PensAcc"@,
        FieldV::Contract(_) => "Contract"@,
        FieldV::PersAcc(_) => "PersAcc"@,
        FieldV::Flat(_) => "Flat"@,
        FieldV::Phone(_) => "Phone"@,
        FieldV::PayerIdType(_) => "PayerIdType"@,
        FieldV::PayerIdNum(_) => "PayerIdNum"@,
        FieldV::ChildFio(_) => "ChildFio"@,
        FieldV::BirthDate(_) => "BirthDate"@,
        FieldV::PaymTerm(_) => "PaymTerm"@,
        FieldV::PaymPeriod(_) => "PaymPeriod"@,
        FieldV::Category(_) => "Category"@,
        FieldV::ServiceName(_) => "ServiceName"@,
        FieldV::CounterId(_) => "CounterId"@,
        FieldV::CounterVal(_) => "CounterVal"@,
        FieldV::QuittId(_) => "QuittId"@,
        FieldV::QuittDate(_) => "QuittDate"@,
        FieldV::InstNum(_) => "InstNum"@,
        FieldV::ClassNum(_) => "ClassNum"@,
        FieldV::SpecFio(_) => "SpecFio"@,
        FieldV::AddAmount(_) => "AddAmount"@,
        FieldV::RuleId(_) => "RuleId"@,
        FieldV::ExecId(_) => "ExecId"@,
        FieldV::RegType(_) => "RegType"@,
        FieldV::UIN(_) => "UIN"@,
        FieldV::TechCode(_) => "TechCode"@,
        FieldV::Custom(key, _) => key,
    }
}

/// The wire value of a field.
pub open spec fn field_value(f: FieldV) -> Seq<char> {
    match f {
        FieldV::Name(v) => v,
        FieldV::PersonalAcc(v) => v,
        FieldV::BankName(v) => v,
        FieldV::BIC(v) => v,
        FieldV::CorrespAcc(v) => v,
        FieldV::Sum(v) => v,
        FieldV::Purpose(v) => v,
        FieldV::PayeeINN(v) => v,
        FieldV::PayerINN(v) => v,
        FieldV::DrawerStatus(v) => v,
        FieldV::KPP(v) => v,
        FieldV::CBC(v) => v,
        FieldV::OKTMO(v) => v,
        FieldV::PaytReason(v) => v,
        FieldV::TaxPeriod(v) => v,
        FieldV::DocNo(v) => v,
        FieldV::DocDate(v) => v,
        FieldV::TaxPayKind(v) => v,
        FieldV::LastName(v) => v,
        FieldV::FirstName(v) => v,
        FieldV::MiddleName(v) => v,
        FieldV::PayerAddress(v) => v,
        FieldV::PersonalAccount(v) => v,
        FieldV::DocIdx(v) => v,
        FieldV::PensAcc(v) => v,
        FieldV::Contract(v) => v,
        FieldV::PersAcc(v) => v,
        FieldV::Flat(v) => v,
        FieldV::Phone(v) => v,
        FieldV::PayerIdType(v) => v,
        FieldV::PayerIdNum(v) => v,
        FieldV::ChildFio(v) => v,
        FieldV::BirthDate(v) => v,
        FieldV::PaymTerm(v) => v,
        FieldV::PaymPeriod(v) => v,
        FieldV::Category(v) => v,
        FieldV::ServiceName(v) => v,
        FieldV::CounterId(v) => v,
        FieldV::CounterVal(v) => v,
        FieldV::QuittId(v) => v,
        FieldV::QuittDate(v) => v,
        FieldV::InstNum(v) => v,
        FieldV::ClassNum(v) => v,
        FieldV::SpecFio(v) => v,
        FieldV::AddAmount(v) => v,
        FieldV::RuleId(v) => v,
        FieldV::ExecId(v) => v,
        FieldV::RegType(v) => v,
        FieldV::UIN(v) => v,
        FieldV::TechCode(tc) => spec_tech_str(tc),
        FieldV::Custom(_, value) => value,
    }
}

/// The size constraint a field's value obeys.
pub open spec fn field_wf(f: FieldV) -> bool {
    match f {
        FieldV::Name(v) => v.len() <= 160,
        FieldV::PersonalAcc(v) => v.len() == 20,
        FieldV::BankName(v) => v.len() <= 45,
        FieldV::BIC(v) => v.len() == 9,
        FieldV::CorrespAcc(v) => v.len() <= 20,
        FieldV::Sum(v) => v.len() <= 18,
        FieldV::Purpose(v) => v.len() <= 210,
        FieldV::PayeeINN(v) => v.len() <= 12,
        FieldV::PayerINN(v) => v.len() <= 12,
        FieldV::DrawerStatus(v) => v.len() <= 2,
        FieldV::KPP(v) => v.len() <= 9,
        FieldV::CBC(v) => v.len() <= 20,
        FieldV::OKTMO(v) => v.len() <= 11,
        FieldV::PaytReason(v) => v.len() <= 2,
        FieldV::TaxPeriod(v) => v.len() <= 10,
        FieldV::DocNo(v) => v.len() <= 15,
        FieldV::DocDate(v) => v.len() <= 10,
        FieldV::TaxPayKind(v) => v.len() <= 2,
        _ => true,
    }
}

/// Whether a field is one of the five required kinds.
pub open spec fn field_is_required(f: FieldV) -> bool {
    ||| f is Name
    ||| f is PersonalAcc
    ||| f is BankName
    ||| f is BIC
    ||| f is CorrespAcc
}

impl<T: CustomRequisites> View for Requisite<T> {
    type V = FieldV;

    open spec fn view(&self) -> FieldV {
        match self {
            Requisite::Name(v) => FieldV::Name(v@),
            Requisite::PersonalAcc(v) => FieldV::PersonalAcc(v@),
            Requisite::BankName(v) => FieldV::BankName(v@),
            Requisite::BIC(v) => FieldV::BIC(v@),
            Requisite::CorrespAcc(v) => FieldV::CorrespAcc(v@),
            Requisite::Sum(v) => FieldV::Sum(v@),
            Requisite::Purpose(v) => FieldV::Purpose(v@),
            Requisite::PayeeINN(v) => FieldV::PayeeINN(v@),
            Requisite::PayerINN(v) => FieldV::PayerINN(v@),
            Requisite::DrawerStatus(v) => FieldV::DrawerStatus(v@),
            Requisite::KPP(v) => FieldV::KPP(v@),
            Requisite::CBC(v) => FieldV::CBC(v@),
            Requisite::OKTMO(v) => FieldV::OKTMO(v@),
            Requisite::PaytReason(v) => FieldV::PaytReason(v@),
            Requisite::TaxPeriod(v) => FieldV::TaxPeriod(v@),
            Requisite::DocNo(v) => FieldV::DocNo(v@),
            Requisite::DocDate(v) => FieldV::DocDate(v@),
            Requisite::TaxPayKind(v) => FieldV::TaxPayKind(v@),
            Requisite::LastName(v) => FieldV::LastName(v@),
            Requisite::FirstName(v) => FieldV::FirstName(v@),
            Requisite::MiddleName(v) => FieldV::MiddleName(v@),
            Requisite::PayerAddress(v) => FieldV::PayerAddress(v@),
            Requisite::PersonalAccount(v) => FieldV::PersonalAccount(v@),
            Requisite::DocIdx(v) => FieldV::DocIdx(v@),
            Requisite::PensAcc(v) => FieldV::PensAcc(v@),
            Requisite::Contract(v) => FieldV::Contract(v@),
            Requisite::PersAcc(v) => FieldV::PersAcc(v@),
            Requisite::Flat(v) => FieldV::Flat(v@),
            Requisite::Phone(v) => FieldV::Phone(v@),
            Requisite::PayerIdType(v) => FieldV::PayerIdType(v@),
            Requisite::PayerIdNum(v) => FieldV::PayerIdNum(v@),
            Requisite::ChildFio(v) => FieldV::ChildFio(v@),
            Requisite::BirthDate(v) => FieldV::BirthDate(v@),
            Requisite::PaymTerm(v) => FieldV::PaymTerm(v@),
            Requisite::PaymPeriod(v) => FieldV::PaymPeriod(v@),
            Requisite::Category(v) => FieldV::Category(v@),
            Requisite::ServiceName(v) => FieldV::ServiceName(v@),
            Requisite::CounterId(v) => FieldV::CounterId(v@),
            Requisite::CounterVal(v) => FieldV::CounterVal(v@),
            Requisite::QuittId(v) => FieldV::QuittId(v@),
            Requisite::QuittDate(v) => FieldV::QuittDate(v@),
            Requisite::InstNum(v) => FieldV::InstNum(v@),
            Requisite::ClassNum(v) => FieldV::ClassNum(v@),
            Requisite::SpecFio(v) => FieldV::SpecFio(v@),
            Requisite::AddAmount(v) => FieldV::AddAmount(v@),
            Requisite::RuleId(v) => FieldV::RuleId(v@),
            Requisite::ExecId(v) => FieldV::ExecId(v@),
            Requisite::RegType(v) => FieldV::RegType(v@),
            Requisite::UIN(v) => FieldV::UIN(v@),
            Requisite::TechCode(tc) => FieldV::TechCode(*tc),
            Requisite::Custom(c) => FieldV::Custom(c.spec_key(), c.spec_value()),
        }
    }
}

/// How the built-in dictionary judges one `(key, value)` pair: it yields a
/// field, rejects the value, or does not know the key at all.
pub enum KnownParse {
    Known(FieldV),
    Bad(ErrorV),
    Unknown,
}

/// Dispatch of one `(key, value)` pair over the built-in dictionary,
/// applying each kind's size constraint.
pub open spec fn spec_parse_known(key: Seq<char>, value: Seq<char>) -> KnownParse {
    if key == "Name"@ {
        if value.len() <= 160 {
            KnownParse::Known(FieldV::Name(value))
        } else {
            KnownParse::Bad(ErrorV::WrongPair(key, value))
        }
    } else if key == "PersonalAcc"@ {
        if value.len() == 20 {
            KnownParse::Known(FieldV::PersonalAcc(value))
        } else {
            KnownParse::Bad(ErrorV::WrongPair(key, value))
        }
    } else if key == "BankName"@ {
        if value.len() <= 45 {
            KnownParse::Known(FieldV::BankName(value))
        } else {
            KnownParse::Bad(ErrorV::WrongPair(key, value))
        }
    } else if key == "BIC"@ {
        if value.len() == 9 {
            KnownParse::Known(FieldV::BIC(value))
        } else {
            KnownParse::Bad(ErrorV::WrongPair(key, value))
        }
    } else if key == "CorrespAcc"@ {
        if value.len() <= 20 {
            KnownParse::Known(FieldV::CorrespAcc(value))
        } else {
            KnownParse::Bad(ErrorV::WrongPair(key, value))
        }
    } else if key == "Sum"@ {
        if value.len() <= 18 {
            KnownParse::Known(FieldV::Sum(value))
        } else {
            KnownParse::Bad(ErrorV::WrongPair(key, value))
        }
    } else if key == "Purpose"@ {
        if value.len() <= 210 {
            KnownParse::Known(FieldV::Purpose(value))
        } else {
            KnownParse::Bad(ErrorV::WrongPair(key, value))
        }
    } else if key == "PayeeINN"@ {
        if value.len() <= 12 {
            KnownParse::Known(FieldV::PayeeINN(value))
        } else {
            KnownParse::Bad(ErrorV::WrongPair(key, value))
        }
    } else if key == "PayerINN"@ {
        if value.len() <= 12 {
            KnownParse::Known(FieldV::PayerINN(value))
        } else {
            KnownParse::Bad(ErrorV::WrongPair(key, value))
        }
    } else if key == "DrawerStatus"@ {
        if value.len() <= 2 {
            KnownParse::Known(FieldV::DrawerStatus(value))
        } else {
            KnownParse::Bad(ErrorV::WrongPair(key, value))
        }
    } else if key == "KPP"@ {
        if value.len() <= 9 {
            KnownParse::Known(FieldV::KPP(value))
        } else {
            KnownParse::Bad(ErrorV::WrongPair(key, value))
        }
    } else if key == "CBC"@ {
        if value.len() <= 20 {
            KnownParse::Known(FieldV::CBC(value))
        } else {
            KnownParse::Bad(ErrorV::WrongPair(key, value))
        }
    } else if key == "OKTMO"@ {
        if value.len() <= 11 {
            KnownParse::Known(FieldV::OKTMO(value))
        } else {
            KnownParse::Bad(ErrorV::WrongPair(key, value))
        }
    } else if key == "PaytReason"@ {
        if value.len() <= 2 {
            KnownParse::Known(FieldV::PaytReason(value))
        } else {
            KnownParse::Bad(ErrorV::WrongPair(key, value))
        }
    } else if key == "TaxPeriod"@ {
        if value.len() <= 10 {
            KnownParse::Known(FieldV::TaxPeriod(value))
        } else {
            KnownParse::Bad(ErrorV::WrongPair(key, value))
        }
    } else if key == "DocNo"@ {
        if value.len() <= 15 {
            KnownParse::Known(FieldV::DocNo(value))
        } else {
            KnownParse::Bad(ErrorV::WrongPair(key, value))
        }
    } else if key == "DocDate"@ {
        if value.len() <= 10 {
            KnownParse::Known(FieldV::DocDate(value))
        } else {
            KnownParse::Bad(ErrorV::WrongPair(key, value))
        }
    } else if key == "TaxPayKind"@ {
        if value.len() <= 2 {
            KnownParse::Known(FieldV::TaxPayKind(value))
        } else {
            KnownParse::Bad(ErrorV::WrongPair(key, value))
        }
    } else if key == "LastName"@ {
        KnownParse::Known(FieldV::LastName(value))
    } else if key == "FirstName"@ {
        KnownParse::Known(FieldV::FirstName(value))
    } else if key == "MiddleName"@ {
        KnownParse::Known(FieldV::MiddleName(value))
    } else if key == "PayerAddress"@ {
        KnownParse::Known(FieldV::PayerAddress(value))
    } else if key == "PersonalAccount"@ {
        KnownParse::Known(FieldV::PersonalAccount(value))
    } else if key == "DocIdx"@ {
        KnownParse::Known(FieldV::DocIdx(value))
    } else if key == "PensAcc"@ {
        KnownParse::Known(FieldV::PensAcc(value))
    } else if key == "Contract"@ {
        KnownParse::Known(FieldV::Contract(value))
    } else if key == "PersAcc"@ {
        KnownParse::Known(FieldV::PersAcc(value))
    } else if key == "Flat"@ {
        KnownParse::Known(FieldV::Flat(value))
    } else if key == "Phone"@ {
        KnownParse::Known(FieldV::Phone(value))
    } else if key == "PayerIdType"@ {
        KnownParse::Known(FieldV::PayerIdType(value))
    } else if key == "PayerIdNum"@ {
        KnownParse::Known(FieldV::PayerIdNum(value))
    } else if key == "ChildFio"@ {
        KnownParse::Known(FieldV::ChildFio(value))
    } else if key == "BirthDate"@ {
        KnownParse::Known(FieldV::BirthDate(value))
    } else if key == "PaymTerm"@ {
        KnownParse::Known(FieldV::PaymTerm(value))
    } else if key == "PaymPeriod"@ {
        KnownParse::Known(FieldV::PaymPeriod(value))
    } else if key == "Category"@ {
        KnownParse::Known(FieldV::Category(value))
    } else if key == "ServiceName"@ {
        KnownParse::Known(FieldV::ServiceName(value))
    } else if key == "CounterId"@ {
        KnownParse::Known(FieldV::CounterId(value))
    } else if key == "CounterVal"@ {
        KnownParse::Known(FieldV::CounterVal(value))
    } else if key == "QuittId"@ {
        KnownParse::Known(FieldV::QuittId(value))
    } else if key == "QuittDate"@ {
        KnownParse::Known(FieldV::QuittDate(value))
    } else if key == "InstNum"@ {
        KnownParse::Known(FieldV::InstNum(value))
    } else if key == "ClassNum"@ {
        KnownParse::Known(FieldV::ClassNum(value))
    } else if key == "SpecFio"@ {
        KnownParse::Known(FieldV::SpecFio(value))
    } else if key == "AddAmount"@ {
        KnownParse::Known(FieldV::AddAmount(value))
    } else if key == "RuleId"@ {
        KnownParse::Known(FieldV::RuleId(value))
    } else if key == "ExecId"@ {
        KnownParse::Known(FieldV::ExecId(value))
    } else if key == "RegType"@ {
        KnownParse::Known(FieldV::RegType(value))
    } else if key == "UIN"@ {
        KnownParse::Known(FieldV::UIN(value))
    } else if key == "TechCode"@ {
        match spec_tech_from(value) {
            Some(tc) => KnownParse::Known(FieldV::TechCode(tc)),
            None => KnownParse::Bad(ErrorV::UnknownTechCode(value)),
        }
    } else {
        KnownParse::Unknown
    }
}

/// What parsing one `(key, value)` pair returns, for every outcome of the
/// built-in dispatch and of the extension point.
pub open spec fn pair_parse_post<T: CustomRequisites>(
    key: Seq<char>,
    value: Seq<char>,
    r: Result<Requisite<T>, Error>,
) -> bool {
    match spec_parse_known(key, value) {
        KnownParse::Known(f) => r matches Ok(q) && q@ == f,
        KnownParse::Bad(e) => r matches Err(err) && err@ == e,
        KnownParse::Unknown => match T::spec_try_from(key, value) {
            Some(c) => r matches Ok(q) && q == Requisite::<T>::Custom(c),
            None => r matches Err(err) && err@ == T::spec_try_err(key, value),
        },
    }
}

impl<T: CustomRequisites> Requisite<T> {
    /// The size constraint of this requisite's kind holds of its value.
    pub open spec fn wf(&self) -> bool {
        field_wf(self@)
    }

    /// The wire key of this requisite.
    pub fn key(&self) -> (r: &str)
        ensures
            r@ == field_key(self@),
    {
        match self {
            Requisite::Name(_) => "Name",
            Requisite::PersonalAcc(_) => "PersonalAcc",
            Requisite::BankName(_) => "BankName",
            Requisite::BIC(_) => "BIC",
            Requisite::CorrespAcc(_) => "CorrespAcc",
            Requisite::Sum(_) => "Sum",
            Requisite::Purpose(_) => "Purpose",
            Requisite::PayeeINN(_) => "PayeeINN",
            Requisite::PayerINN(_) => "PayerINN",
            Requisite::DrawerStatus(_) => "DrawerStatus",
            Requisite::KPP(_) => "KPP",
            Requisite::CBC(_) => "CBC",
            Requisite::OKTMO(_) => "OKTMO",
            Requisite::PaytReason(_) => "PaytReason",
            Requisite::TaxPeriod(_) => "TaxPeriod",
            Requisite::DocNo(_) => "DocNo",
            Requisite::DocDate(_) => "DocDate",
            Requisite::TaxPayKind(_) => "TaxPayKind",
            Requisite::LastName(_) => "LastName",
            Requisite::FirstName(_) => "FirstName",
            Requisite::MiddleName(_) => "MiddleName",
            Requisite::PayerAddress(_) => "PayerAddress",
            Requisite::PersonalAccount(_) => "PersonalAccount",
            Requisite::DocIdx(_) => "DocIdx",
            Requisite::PensAcc(_) => "PensAcc",
            Requisite::Contract(_) => "Contract",
            Requisite::PersAcc(_) => "PersAcc",
            Requisite::Flat(_) => "Flat",
            Requisite::Phone(_) => "Phone",
            Requisite::PayerIdType(_) => "PayerIdType",
            Requisite::PayerIdNum(_) => "PayerIdNum",
            Requisite::ChildFio(_) => "ChildFio",
            Requisite::BirthDate(_) => "BirthDate",
            Requisite::PaymTerm(_) => "PaymTerm",
            Requisite::PaymPeriod(_) => "PaymPeriod",
            Requisite::Category(_) => "Category",
            Requisite::ServiceName(_) => "ServiceName",
            Requisite::CounterId(_) => "CounterId",
            Requisite::CounterVal(_) => "CounterVal",
            Requisite::QuittId(_) => "QuittId",
            Requisite::QuittDate(_) => "QuittDate",
            Requisite::InstNum(_) => "InstNum",
            Requisite::ClassNum(_) => "ClassNum",
            Requisite::SpecFio(_) => "SpecFio",
            Requisite::AddAmount(_) => "AddAmount",
            Requisite::RuleId(_) => "RuleId",
            Requisite::ExecId(_) => "ExecId",
            Requisite::RegType(_) => "RegType",
            Requisite::UIN(_) => "UIN",
            Requisite::TechCode(_) => "TechCode",
            Requisite::Custom(c) => c.key(),
        }
    }

    /// The wire value of this requisite.
    pub fn value(&self) -> (r: &str)
        ensures
            r@ == field_value(self@),
    {
        match self {
            Requisite::Name(v) => v.as_str(),
            Requisite::PersonalAcc(v) => v.as_str(),
            Requisite::BankName(v) => v.as_str(),
            Requisite::BIC(v) => v.as_str(),
            Requisite::CorrespAcc(v) => v.as_str(),
            Requisite::Sum(v) => v.as_str(),
            Requisite::Purpose(v) => v.as_str(),
            Requisite::PayeeINN(v) => v.as_str(),
            Requisite::PayerINN(v) => v.as_str(),
            Requisite::DrawerStatus(v) => v.as_str(),
            Requisite::KPP(v) => v.as_str(),
            Requisite::CBC(v) => v.as_str(),
            Requisite::OKTMO(v) => v.as_str(),
            Requisite::PaytReason(v) => v.as_str(),
            Requisite::TaxPeriod(v) => v.as_str(),
            Requisite::DocNo(v) => v.as_str(),
            Requisite::DocDate(v) => v.as_str(),
            Requisite::TaxPayKind(v) => v.as_str(),
            Requisite::LastName(v) => v.as_str(),
            Requisite::FirstName(v) => v.as_str(),
            Requisite::MiddleName(v) => v.as_str(),
            Requisite::PayerAddress(v) => v.as_str(),
            Requisite::PersonalAccount(v) => v.as_str(),
            Requisite::DocIdx(v) => v.as_str(),
            Requisite::PensAcc(v) => v.as_str(),
            Requisite::Contract(v) => v.as_str(),
            Requisite::PersAcc(v) => v.as_str(),
            Requisite::Flat(v) => v.as_str(),
            Requisite::Phone(v) => v.as_str(),
            Requisite::PayerIdType(v) => v.as_str(),
            Requisite::PayerIdNum(v) => v.as_str(),
            Requisite::ChildFio(v) => v.as_str(),
            Requisite::BirthDate(v) => v.as_str(),
            Requisite::PaymTerm(v) => v.as_str(),
            Requisite::PaymPeriod(v) => v.as_str(),
            Requisite::Category(v) => v.as_str(),
            Requisite::ServiceName(v) => v.as_str(),
            Requisite::CounterId(v) => v.as_str(),
            Requisite::CounterVal(v) => v.as_str(),
            Requisite::QuittId(v) => v.as_str(),
            Requisite::QuittDate(v) => v.as_str(),
            Requisite::InstNum(v) => v.as_str(),
            Requisite::ClassNum(v) => v.as_str(),
            Requisite::SpecFio(v) => v.as_str(),
            Requisite::AddAmount(v) => v.as_str(),
            Requisite::RuleId(v) => v.as_str(),
            Requisite::ExecId(v) => v.as_str(),
            Requisite::RegType(v) => v.as_str(),
            Requisite::UIN(v) => v.as_str(),
            Requisite::TechCode(tc) => tc.as_str(),
            Requisite::Custom(c) => c.value(),
        }
    }

    /// Parses one `(key, value)` pair: a known key constructs the matching
    /// kind under its size constraint, and an unknown key is delegated to
    /// the extension point.
    pub fn try_from_pair(key: &str, value: &str) -> (r: Result<Self, Error>)
        ensures
            pair_parse_post::<T>(key@, value@, r),
            r matches Ok(q) ==> q.wf(),
    {
        if str_eq(key, "Name") {
            match MaxSizeString::<160>::new(value) {
                Some(t) => Ok(Requisite::Name(t)),
                None => Err(Error::WrongPair(key.to_owned(), value.to_owned())),
            }
        } else if str_eq(key, "PersonalAcc") {
            match ExactSizeString::<20>::new(value) {
                Some(t) => Ok(Requisite::PersonalAcc(t)),
                None => Err(Error::WrongPair(key.to_owned(), value.to_owned())),
            }
        } else if str_eq(key, "BankName") {
            match MaxSizeString::<45>::new(value) {
                Some(t) => Ok(Requisite::BankName(t)),
                None => Err(Error::WrongPair(key.to_owned(), value.to_owned())),
            }
        } else if str_eq(key, "BIC") {
            match ExactSizeString::<9>::new(value) {
                Some(t) => Ok(Requisite::BIC(t)),
                None => Err(Error::WrongPair(key.to_owned(), value.to_owned())),
            }
        } else if str_eq(key, "CorrespAcc") {
            match MaxSizeString::<20>::new(value) {
                Some(t) => Ok(Requisite::CorrespAcc(t)),
                None => Err(Error::WrongPair(key.to_owned(), value.to_owned())),
            }
        } else if str_eq(key, "Sum") {
            match MaxSizeString::<18>::new(value) {
                Some(t) => Ok(Requisite::Sum(t)),
                None => Err(Error::WrongPair(key.to_owned(), value.to_owned())),
            }
        } else if str_eq(key, "Purpose") {
            match MaxSizeString::<210>::new(value) {
                Some(t) => Ok(Requisite::Purpose(t)),
                None => Err(Error::WrongPair(key.to_owned(), value.to_owned())),
            }
        } else if str_eq(key, "PayeeINN") {
            match MaxSizeString::<12>::new(value) {
                Some(t) => Ok(Requisite::PayeeINN(t)),
                None => Err(Error::WrongPair(key.to_owned(), value.to_owned())),
            }
        } else if str_eq(key, "PayerINN") {
            match MaxSizeString::<12>::new(value) {
                Some(t) => Ok(Requisite::PayerINN(t)),
                None => Err(Error::WrongPair(key.to_owned(), value.to_owned())),
            }
        } else if str_eq(key, "DrawerStatus") {
            match MaxSizeString::<2>::new(value) {
                Some(t) => Ok(Requisite::DrawerStatus(t)),
                None => Err(Error::WrongPair(key.to_owned(), value.to_owned())),
            }
        } else if str_eq(key, "KPP") {
            match MaxSizeString::<9>::new(value) {
                Some(t) => Ok(Requisite::KPP(t)),
                None => Err(Error::WrongPair(key.to_owned(), value.to_owned())),
            }
        } else if str_eq(key, "CBC") {
            match MaxSizeString::<20>::new(value) {
                Some(t) => Ok(Requisite::CBC(t)),
                None => Err(Error::WrongPair(key.to_owned(), value.to_owned())),
            }
        } else if str_eq(key, "OKTMO") {
            match MaxSizeString::<11>::new(value) {
                Some(t) => Ok(Requisite::OKTMO(t)),
                None => Err(Error::WrongPair(key.to_owned(), value.to_owned())),
            }
        } else if str_eq(key, "PaytReason") {
            match MaxSizeString::<2>::new(value) {
                Some(t) => Ok(Requisite::PaytReason(t)),
                None => Err(Error::WrongPair(key.to_owned(), value.to_owned())),
            }
        } else if str_eq(key, "TaxPeriod") {
            match MaxSizeString::<10>::new(value) {
                Some(t) => Ok(Requisite::TaxPeriod(t)),
                None => Err(Error::WrongPair(key.to_owned(), value.to_owned())),
            }
        } else if str_eq(key, "DocNo") {
            match MaxSizeString::<15>::new(value) {
                Some(t) => Ok(Requisite::DocNo(t)),
                None => Err(Error::WrongPair(key.to_owned(), value.to_owned())),
            }
        } else if str_eq(key, "DocDate") {
            match MaxSizeString::<10>::new(value) {
                Some(t) => Ok(Requisite::DocDate(t)),
                None => Err(Error::WrongPair(key.to_owned(), value.to_owned())),
            }
        } else if str_eq(key, "TaxPayKind") {
            match MaxSizeString::<2>::new(value) {
                Some(t) => Ok(Requisite::TaxPayKind(t)),
                None => Err(Error::WrongPair(key.to_owned(), value.to_owned())),
            }
        } else if str_eq(key, "LastName") {
            Ok(Requisite::LastName(value.to_owned()))
        } else if str_eq(key, "FirstName") {
            Ok(Requisite::FirstName(value.to_owned()))
        } else if str_eq(key, "MiddleName") {
            Ok(Requisite::MiddleName(value.to_owned()))
        } else if str_eq(key, "PayerAddress") {
            Ok(Requisite::PayerAddress(value.to_owned()))
        } else if str_eq(key, "PersonalAccount") {
            Ok(Requisite::PersonalAccount(value.to_owned()))
        } else if str_eq(key, "DocIdx") {
            Ok(Requisite::DocIdx(value.to_owned()))
        } else if str_eq(key, "PensAcc") {
            Ok(Requisite::PensAcc(value.to_owned()))
        } else if str_eq(key, "Contract") {
            Ok(Requisite::Contract(value.to_owned()))
        } else if str_eq(key, "PersAcc") {
            Ok(Requisite::PersAcc(value.to_owned()))
        } else if str_eq(key, "Flat") {
            Ok(Requisite::Flat(value.to_owned()))
        } else if str_eq(key, "Phone") {
            Ok(Requisite::Phone(value.to_owned()))
        } else if str_eq(key, "PayerIdType") {
            Ok(Requisite::PayerIdType(value.to_owned()))
        } else if str_eq(key, "PayerIdNum") {
            Ok(Requisite::PayerIdNum(value.to_owned()))
        } else if str_eq(key, "ChildFio") {
            Ok(Requisite::ChildFio(value.to_owned()))
        } else if str_eq(key, "BirthDate") {
            Ok(Requisite::BirthDate(value.to_owned()))
        } else if str_eq(key, "PaymTerm") {
            Ok(Requisite::PaymTerm(value.to_owned()))
        } else if str_eq(key, "PaymPeriod") {
            Ok(Requisite::PaymPeriod(value.to_owned()))
        } else if str_eq(key, "Category") {
            Ok(Requisite::Category(value.to_owned()))
        } else if str_eq(key, "ServiceName") {
            Ok(Requisite::ServiceName(value.to_owned()))
        } else if str_eq(key, "CounterId") {
            Ok(Requisite::CounterId(value.to_owned()))
        } else if str_eq(key, "CounterVal") {
            Ok(Requisite::CounterVal(value.to_owned()))
        } else if str_eq(key, "QuittId") {
            Ok(Requisite::QuittId(value.to_owned()))
        } else if str_eq(key, "QuittDate") {
            Ok(Requisite::QuittDate(value.to_owned()))
        } else if str_eq(key, "InstNum") {
            Ok(Requisite::InstNum(value.to_owned()))
        } else if str_eq(key, "ClassNum") {
            Ok(Requisite::ClassNum(value.to_owned()))
        } else if str_eq(key, "SpecFio") {
            Ok(Requisite::SpecFio(value.to_owned()))
        } else if str_eq(key, "AddAmount") {
            Ok(Requisite::AddAmount(value.to_owned()))
        } else if str_eq(key, "RuleId") {
            Ok(Requisite::RuleId(value.to_owned()))
        } else if str_eq(key, "ExecId") {
            Ok(Requisite::ExecId(value.to_owned()))
        } else if str_eq(key, "RegType") {
            Ok(Requisite::RegType(value.to_owned()))
        } else if str_eq(key, "UIN") {
            Ok(Requisite::UIN(value.to_owned()))
        } else if str_eq(key, "TechCode") {
            match TechCode::from_str(value) {
                Ok(tc) => Ok(Requisite::TechCode(tc)),
                Err(e) => Err(e),
            }
        } else {
            match T::try_from_pair(key, value) {
                Ok(c) => Ok(Requisite::Custom(c)),
                Err(e) => Err(e),
            }
        }
    }
}


/// The concrete characters of every built-in wire key.
pub proof fn lemma_key_chars()
    ensures
        "Name"@ =~= seq!['N', 'a', 'm', 'e'],
        "PersonalAcc"@ =~= seq!['P', 'e', 'r', 's', 'o', 'n', 'a', 'l', 'A', 'c', 'c'],
        "BankName"@ =~= seq!['B', 'a', 'n', 'k', 'N', 'a', 'm', 'e'],
        "BIC"@ =~= seq!['B', 'I', 'C'],
        "CorrespAcc"@ =~= seq!['C', 'o', 'r', 'r', 'e', 's', 'p', 'A', 'c', 'c'],
        "Sum"@ =~= seq!['S', 'u', 'm'],
        "Purpose"@ =~= seq!['P', 'u', 'r', 'p', 'o', 's', 'e'],
        "PayeeINN"@ =~= seq!['P', 'a', 'y', 'e', 'e', 'I', 'N', 'N'],
        "PayerINN"@ =~= seq!['P', 'a', 'y', 'e', 'r', 'I', 'N', 'N'],
        "DrawerStatus"@ =~= seq!['D', 'r', 'a', 'w', 'e', 'r', 'S', 't', 'a', 't', 'u', 's'],
        "KPP"@ =~= seq!['K', 'P', 'P'],
        "CBC"@ =~= seq!['C', 'B', 'C'],
        "OKTMO"@ =~= seq!['O', 'K', 'T', 'M', 'O'],
        "PaytReason"@ =~= seq!['P', 'a', 'y', 't', 'R', 'e', 'a', 's', 'o', 'n'],
        "TaxPeriod"@ =~= seq!['T', 'a', 'x', 'P', 'e', 'r', 'i', 'o', 'd'],
        "DocNo"@ =~= seq!['D', 'o', 'c', 'N', 'o'],
        "DocDate"@ =~= seq!['D', 'o', 'c', 'D', 'a', 't', 'e'],
        "TaxPayKind"@ =~= seq!['T', 'a', 'x', 'P', 'a', 'y', 'K', 'i', 'n', 'd'],
        "LastName"@ =~= seq!['L', 'a', 's', 't', 'N', 'a', 'm', 'e'],
        "FirstName"@ =~= seq!['F', 'i', 'r', 's', 't', 'N', 'a', 'm', 'e'],
        "MiddleName"@ =~= seq!['M', 'i', 'd', 'd', 'l', 'e', 'N', 'a', 'm', 'e'],
        "PayerAddress"@ =~= seq!['P', 'a', 'y', 'e', 'r', 'A', 'd', 'd', 'r', 'e', 's', 's'],
        "PersonalAccount"@ =~= seq!['P', 'e', 'r', 's', 'o', 'n', 'a', 'l', 'A', 'c', 'c', 'o', 'u', 'n', 't'],
        "DocIdx"@ =~= seq!['D', 'o', 'c', 'I', 'd', 'x'],
        "PensAcc"@ =~= seq!['P', 'e', 'n', 's', 'A', 'c', 'c'],
        "Contract"@ =~= seq!['C', 'o', 'n', 't', 'r', 'a', 'c', 't'],
        "PersAcc"@ =~= seq!['P', 'e', 'r', 's', 'A', 'c', 'c'],
        "Flat"@ =~= seq!['F', 'l', 'a', 't'],
        "Phone"@ =~= seq!['P', 'h', 'o', 'n', 'e'],
        "PayerIdType"@ =~= seq!['P', 'a', 'y', 'e', 'r', 'I', 'd', 'T', 'y', 'p', 'e'],
        "PayerIdNum"@ =~= seq!['P', 'a', 'y', 'e', 'r', 'I', 'd', 'N', 'u', 'm'],
        "ChildFio"@ =~= seq!['C', 'h', 'i', 'l', 'd', 'F', 'i', 'o'],
        "BirthDate"@ =~= seq!['B', 'i', 'r', 't', 'h', 'D', 'a', 't', 'e'],
        "PaymTerm"@ =~= seq!['P', 'a', 'y', 'm', 'T', 'e', 'r', 'm'],
        "PaymPeriod"@ =~= seq!['P', 'a', 'y', 'm', 'P', 'e', 'r', 'i', 'o', 'd'],
        "Category"@ =~= seq!['C', 'a', 't', 'e', 'g', 'o', 'r', 'y'],
        "ServiceName"@ =~= seq!['S', 'e', 'r', 'v', 'i', 'c', 'e', 'N', 'a', 'm', 'e'],
        "CounterId"@ =~= seq!['C', 'o', 'u', 'n', 't', 'e', 'r', 'I', 'd'],
        "CounterVal"@ =~= seq!['C', 'o', 'u', 'n', 't', 'e', 'r', 'V', 'a', 'l'],
        "QuittId"@ =~= seq!['Q', 'u', 'i', 't', 't', 'I', 'd'],
        "QuittDate"@ =~= seq!['Q', 'u', 'i', 't', 't', 'D', 'a', 't', 'e'],
        "InstNum"@ =~= seq!['I', 'n', 's', 't', 'N', 'u', 'm'],
        "ClassNum"@ =~= seq!['C', 'l', 'a', 's', 's', 'N', 'u', 'm'],
        "SpecFio"@ =~= seq!['S', 'p', 'e', 'c', 'F', 'i', 'o'],
        "AddAmount"@ =~= seq!['A', 'd', 'd', 'A', 'm', 'o', 'u', 'n', 't'],
        "RuleId"@ =~= seq!['R', 'u', 'l', 'e', 'I', 'd'],
        "ExecId"@ =~= seq!['E', 'x', 'e', 'c', 'I', 'd'],
        "RegType"@ =~= seq!['R', 'e', 'g', 'T', 'y', 'p', 'e'],
        "UIN"@ =~= seq!['U', 'I', 'N'],
        "TechCode"@ =~= seq!['T', 'e', 'c', 'h', 'C', 'o', 'd', 'e'],
{
    reveal_strlit("Name");
    reveal_strlit("PersonalAcc");
    reveal_strlit("BankName");
    reveal_strlit("BIC");
    reveal_strlit("CorrespAcc");
    reveal_strlit("Sum");
    reveal_strlit("Purpose");
    reveal_strlit("PayeeINN");
    reveal_strlit("PayerINN");
    reveal_strlit("DrawerStatus");
    reveal_strlit("KPP");
    reveal_strlit("CBC");
    reveal_strlit("OKTMO");
    reveal_strlit("PaytReason");
    reveal_strlit("TaxPeriod");
    reveal_strlit("DocNo");
    reveal_strlit("DocDate");
    reveal_strlit("TaxPayKind");
    reveal_strlit("LastName");
    reveal_strlit("FirstName");
    reveal_strlit("MiddleName");
    reveal_strlit("PayerAddress");
    reveal_strlit("PersonalAccount");
    reveal_strlit("DocIdx");
    reveal_strlit("PensAcc");
    reveal_strlit("Contract");
    reveal_strlit("PersAcc");
    reveal_strlit("Flat");
    reveal_strlit("Phone");
    reveal_strlit("PayerIdType");
    reveal_strlit("PayerIdNum");
    reveal_strlit("ChildFio");
    reveal_strlit("BirthDate");
    reveal_strlit("PaymTerm");
    reveal_strlit("PaymPeriod");
    reveal_strlit("Category");
    reveal_strlit("ServiceName");
    reveal_strlit("CounterId");
    reveal_strlit("CounterVal");
    reveal_strlit("QuittId");
    reveal_strlit("QuittDate");
    reveal_strlit("InstNum");
    reveal_strlit("ClassNum");
    reveal_strlit("SpecFio");
    reveal_strlit("AddAmount");
    reveal_strlit("RuleId");
    reveal_strlit("ExecId");
    reveal_strlit("RegType");
    reveal_strlit("UIN");
    reveal_strlit("TechCode");
}

/// No built-in wire key holds the pair delimiter `=`.
pub proof fn lemma_key_no_eq(f: FieldV)
    requires
        !(f is Custom),
    ensures
        !field_key(f).contains('='),
{
    lemma_key_chars();
    match f {
        FieldV::Name(_) => assert(!"Name"@.contains('=')),
        FieldV::PersonalAcc(_) => assert(!"PersonalAcc"@.contains('=')),
        FieldV::BankName(_) => assert(!"BankName"@.contains('=')),
        FieldV::BIC(_) => assert(!"BIC"@.contains('=')),
        FieldV::CorrespAcc(_) => assert(!"CorrespAcc"@.contains('=')),
        FieldV::Sum(_) => assert(!"Sum"@.contains('=')),
        FieldV::Purpose(_) => assert(!"Purpose"@.contains('=')),
        FieldV::PayeeINN(_) => assert(!"PayeeINN"@.contains('=')),
        FieldV::PayerINN(_) => assert(!"PayerINN"@.contains('=')),
        FieldV::DrawerStatus(_) => assert(!"DrawerStatus"@.contains('=')),
        FieldV::KPP(_) => assert(!"KPP"@.contains('=')),
        FieldV::CBC(_) => assert(!"CBC"@.contains('=')),
        FieldV::OKTMO(_) => assert(!"OKTMO"@.contains('=')),
        FieldV::PaytReason(_) => assert(!"PaytReason"@.contains('=')),
        FieldV::TaxPeriod(_) => assert(!"TaxPeriod"@.contains('=')),
        FieldV::DocNo(_) => assert(!"DocNo"@.contains('=')),
        FieldV::DocDate(_) => assert(!"DocDate"@.contains('=')),
        FieldV::TaxPayKind(_) => assert(!"TaxPayKind"@.contains('=')),
        FieldV::LastName(_) => assert(!"LastName"@.contains('=')),
        FieldV::FirstName(_) => assert(!"FirstName"@.contains('=')),
        FieldV::MiddleName(_) => assert(!"MiddleName"@.contains('=')),
        FieldV::PayerAddress(_) => assert(!"PayerAddress"@.contains('=')),
        FieldV::PersonalAccount(_) => assert(!"PersonalAccount"@.contains('=')),
        FieldV::DocIdx(_) => assert(!"DocIdx"@.contains('=')),
        FieldV::PensAcc(_) => assert(!"PensAcc"@.contains('=')),
        FieldV::Contract(_) => assert(!"Contract"@.contains('=')),
        FieldV::PersAcc(_) => assert(!"PersAcc"@.contains('=')),
        FieldV::Flat(_) => assert(!"Flat"@.contains('=')),
        FieldV::Phone(_) => assert(!"Phone"@.contains('=')),
        FieldV::PayerIdType(_) => assert(!"PayerIdType"@.contains('=')),
        FieldV::PayerIdNum(_) => assert(!"PayerIdNum"@.contains('=')),
        FieldV::ChildFio(_) => assert(!"ChildFio"@.contains('=')),
        FieldV::BirthDate(_) => assert(!"BirthDate"@.contains('=')),
        FieldV::PaymTerm(_) => assert(!"PaymTerm"@.contains('=')),
        FieldV::PaymPeriod(_) => assert(!"PaymPeriod"@.contains('=')),
        FieldV::Category(_) => assert(!"Category"@.contains('=')),
        FieldV::ServiceName(_) => assert(!"ServiceName"@.contains('=')),
        FieldV::CounterId(_) => assert(!"CounterId"@.contains('=')),
        FieldV::CounterVal(_) => assert(!"CounterVal"@.contains('=')),
        FieldV::QuittId(_) => assert(!"QuittId"@.contains('=')),
        FieldV::QuittDate(_) => assert(!"QuittDate"@.contains('=')),
        FieldV::InstNum(_) => assert(!"InstNum"@.contains('=')),
        FieldV::ClassNum(_) => assert(!"ClassNum"@.contains('=')),
        FieldV::SpecFio(_) => assert(!"SpecFio"@.contains('=')),
        FieldV::AddAmount(_) => assert(!"AddAmount"@.contains('=')),
        FieldV::RuleId(_) => assert(!"RuleId"@.contains('=')),
        FieldV::ExecId(_) => assert(!"ExecId"@.contains('=')),
        FieldV::RegType(_) => assert(!"RegType"@.contains('=')),
        FieldV::UIN(_) => assert(!"UIN"@.contains('=')),
        FieldV::TechCode(_) => assert(!"TechCode"@.contains('=')),
        FieldV::Custom(_, _) => (),
    }
}

/// Every well-formed built-in field parses back from its own wire key
/// and value: the dictionary dispatch inverts the key/value rendering.
#[verifier::rlimit(100)]
pub proof fn lemma_parse_known_inverts(f: FieldV)
    requires
        field_wf(f),
        !(f is Custom),
    ensures
        spec_parse_known(field_key(f), field_value(f)) == KnownParse::Known(f),
{
    lemma_key_chars();
    match f {
        FieldV::Name(v) => assert(spec_parse_known("Name"@, v) == KnownParse::Known(
            FieldV::Name(v),
        )),
        FieldV::PersonalAcc(v) => assert(spec_parse_known("PersonalAcc"@, v) == KnownParse::Known(
            FieldV::PersonalAcc(v),
        )),
        FieldV::BankName(v) => assert(spec_parse_known("BankName"@, v) == KnownParse::Known(
            FieldV::BankName(v),
        )),
        FieldV::BIC(v) => assert(spec_parse_known("BIC"@, v) == KnownParse::Known(
            FieldV::BIC(v),
        )),
        FieldV::CorrespAcc(v) => assert(spec_parse_known("CorrespAcc"@, v) == KnownParse::Known(
            FieldV::CorrespAcc(v),
        )),
        FieldV::Sum(v) => assert(spec_parse_known("Sum"@, v) == KnownParse::Known(
            FieldV::Sum(v),
        )),
        FieldV::Purpose(v) => assert(spec_parse_known("Purpose"@, v) == KnownParse::Known(
            FieldV::Purpose(v),
        )),
        FieldV::PayeeINN(v) => assert(spec_parse_known("PayeeINN"@, v) == KnownParse::Known(
            FieldV::PayeeINN(v),
        )),
        FieldV::PayerINN(v) => assert(spec_parse_known("PayerINN"@, v) == KnownParse::Known(
            FieldV::PayerINN(v),
        )),
        FieldV::DrawerStatus(v) => assert(spec_parse_known("DrawerStatus"@, v) == KnownParse::Known(
            FieldV::DrawerStatus(v),
        )),
        FieldV::KPP(v) => assert(spec_parse_known("KPP"@, v) == KnownParse::Known(
            FieldV::KPP(v),
        )),
        FieldV::CBC(v) => assert(spec_parse_known("CBC"@, v) == KnownParse::Known(
            FieldV::CBC(v),
        )),
        FieldV::OKTMO(v) => assert(spec_parse_known("OKTMO"@, v) == KnownParse::Known(
            FieldV::OKTMO(v),
        )),
        FieldV::PaytReason(v) => assert(spec_parse_known("PaytReason"@, v) == KnownParse::Known(
            FieldV::PaytReason(v),
        )),
        FieldV::TaxPeriod(v) => assert(spec_parse_known("TaxPeriod"@, v) == KnownParse::Known(
            FieldV::TaxPeriod(v),
        )),
        FieldV::DocNo(v) => assert(spec_parse_known("DocNo"@, v) == KnownParse::Known(
            FieldV::DocNo(v),
        )),
        FieldV::DocDate(v) => assert(spec_parse_known("DocDate"@, v) == KnownParse::Known(
            FieldV::DocDate(v),
        )),
        FieldV::TaxPayKind(v) => assert(spec_parse_known("TaxPayKind"@, v) == KnownParse::Known(
            FieldV::TaxPayKind(v),
        )),
        FieldV::LastName(v) => assert(spec_parse_known("LastName"@, v) == KnownParse::Known(
            FieldV::LastName(v),
        )),
        FieldV::FirstName(v) => assert(spec_parse_known("FirstName"@, v) == KnownParse::Known(
            FieldV::FirstName(v),
        )),
        FieldV::MiddleName(v) => assert(spec_parse_known("MiddleName"@, v) == KnownParse::Known(
            FieldV::MiddleName(v),
        )),
        FieldV::PayerAddress(v) => assert(spec_parse_known("PayerAddress"@, v) == KnownParse::Known(
            FieldV::PayerAddress(v),
        )),
        FieldV::PersonalAccount(v) => {
            assert("PersonalAccount"@.len() == 15);
            assert("PersonalAcc"@.len() == 11);
            assert("DrawerStatus"@.len() == 12);
            assert("PayerAddress"@.len() == 12);
            assert(spec_parse_known("PersonalAccount"@, v) == KnownParse::Known(
                FieldV::PersonalAccount(v),
            ));
        },
        FieldV::DocIdx(v) => assert(spec_parse_known("DocIdx"@, v) == KnownParse::Known(
            FieldV::DocIdx(v),
        )),
        FieldV::PensAcc(v) => assert(spec_parse_known("PensAcc"@, v) == KnownParse::Known(
            FieldV::PensAcc(v),
        )),
        FieldV::Contract(v) => assert(spec_parse_known("Contract"@, v) == KnownParse::Known(
            FieldV::Contract(v),
        )),
        FieldV::PersAcc(v) => assert(spec_parse_known("PersAcc"@, v) == KnownParse::Known(
            FieldV::PersAcc(v),
        )),
        FieldV::Flat(v) => assert(spec_parse_known("Flat"@, v) == KnownParse::Known(
            FieldV::Flat(v),
        )),
        FieldV::Phone(v) => assert(spec_parse_known("Phone"@, v) == KnownParse::Known(
            FieldV::Phone(v),
        )),
        FieldV::PayerIdType(v) => assert(spec_parse_known("PayerIdType"@, v) == KnownParse::Known(
            FieldV::PayerIdType(v),
        )),
        FieldV::PayerIdNum(v) => assert(spec_parse_known("PayerIdNum"@, v) == KnownParse::Known(
            FieldV::PayerIdNum(v),
        )),
        FieldV::ChildFio(v) => assert(spec_parse_known("ChildFio"@, v) == KnownParse::Known(
            FieldV::ChildFio(v),
        )),
        FieldV::BirthDate(v) => assert(spec_parse_known("BirthDate"@, v) == KnownParse::Known(
            FieldV::BirthDate(v),
        )),
        FieldV::PaymTerm(v) => assert(spec_parse_known("PaymTerm"@, v) == KnownParse::Known(
            FieldV::PaymTerm(v),
        )),
        FieldV::PaymPeriod(v) => assert(spec_parse_known("PaymPeriod"@, v) == KnownParse::Known(
            FieldV::PaymPeriod(v),
        )),
        FieldV::Category(v) => assert(spec_parse_known("Category"@, v) == KnownParse::Known(
            FieldV::Category(v),
        )),
        FieldV::ServiceName(v) => assert(spec_parse_known("ServiceName"@, v) == KnownParse::Known(
            FieldV::ServiceName(v),
        )),
        FieldV::CounterId(v) => assert(spec_parse_known("CounterId"@, v) == KnownParse::Known(
            FieldV::CounterId(v),
        )),
        FieldV::CounterVal(v) => assert(spec_parse_known("CounterVal"@, v) == KnownParse::Known(
            FieldV::CounterVal(v),
        )),
        FieldV::QuittId(v) => assert(spec_parse_known("QuittId"@, v) == KnownParse::Known(
            FieldV::QuittId(v),
        )),
        FieldV::QuittDate(v) => assert(spec_parse_known("QuittDate"@, v) == KnownParse::Known(
            FieldV::QuittDate(v),
        )),
        FieldV::InstNum(v) => assert(spec_parse_known("InstNum"@, v) == KnownParse::Known(
            FieldV::InstNum(v),
        )),
        FieldV::ClassNum(v) => assert(spec_parse_known("ClassNum"@, v) == KnownParse::Known(
            FieldV::ClassNum(v),
        )),
        FieldV::SpecFio(v) => assert(spec_parse_known("SpecFio"@, v) == KnownParse::Known(
            FieldV::SpecFio(v),
        )),
        FieldV::AddAmount(v) => assert(spec_parse_known("AddAmount"@, v) == KnownParse::Known(
            FieldV::AddAmount(v),
        )),
        FieldV::RuleId(v) => assert(spec_parse_known("RuleId"@, v) == KnownParse::Known(
            FieldV::RuleId(v),
        )),
        FieldV::ExecId(v) => assert(spec_parse_known("ExecId"@, v) == KnownParse::Known(
            FieldV::ExecId(v),
        )),
        FieldV::RegType(v) => assert(spec_parse_known("RegType"@, v) == KnownParse::Known(
            FieldV::RegType(v),
        )),
        FieldV::UIN(v) => assert(spec_parse_known("UIN"@, v) == KnownParse::Known(
            FieldV::UIN(v),
        )),
        FieldV::TechCode(tc) => {
            lemma_tech_roundtrip(tc);
            assert(spec_parse_known("TechCode"@, spec_tech_str(tc)) == KnownParse::Known(
                FieldV::TechCode(tc),
            ));
        },
        FieldV::Custom(_, _) => (),
    }
}

} // verus!
