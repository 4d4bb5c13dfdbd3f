use st00012::{
    Error, ExactSizeString, MaxSizeString, ParserStrategy, Payment, PaymentEncoding,
    RequiredRequisite, Requisite, StringExt, TechCode,
};

fn required_ascii() -> RequiredRequisite {
    RequiredRequisite {
        name: "ACME".to_max_size().unwrap(),
        personal_acc: "12345678901234567890".to_exact_size().unwrap(),
        bank_name: "Bank".to_max_size().unwrap(),
        bic: "044525225".to_exact_size().unwrap(),
        correstp_acc: "30101810400000000225".to_max_size().unwrap(),
    }
}

#[test]
fn exact_size_accepts_only_exact_counts() {
    assert!(ExactSizeString::<3>::new("abc").is_some());
    assert!(ExactSizeString::<3>::new("ab").is_none());
    assert!(ExactSizeString::<3>::new("abcd").is_none());
    // counts are characters, not bytes
    assert!(ExactSizeString::<3>::new("абв").is_some());
    assert_eq!(ExactSizeString::<3>::new("abc").unwrap().as_str(), "abc");
}

#[test]
fn exact_size_strip_truncates_only_over_length() {
    assert!(ExactSizeString::<3>::new_strip("ab").is_none());
    assert_eq!(ExactSizeString::<3>::new_strip("abc").unwrap().as_str(), "abc");
    assert_eq!(ExactSizeString::<3>::new_strip("abcde").unwrap().as_str(), "abc");
    assert_eq!(ExactSizeString::<2>::new_strip("абвг").unwrap().as_str(), "аб");
}

#[test]
fn exact_size_unchecked_keeps_text() {
    assert_eq!(ExactSizeString::<4>::new_unchecked("wxyz").as_str(), "wxyz");
}

#[test]
fn max_size_accepts_up_to_bound() {
    assert!(MaxSizeString::<3>::new("").is_some());
    assert!(MaxSizeString::<3>::new("abc").is_some());
    assert!(MaxSizeString::<3>::new("abcd").is_none());
    assert!(MaxSizeString::<3>::new("абвг").is_none());
    assert_eq!(MaxSizeString::<3>::new_strip("abcd").as_str(), "abc");
    assert_eq!(MaxSizeString::<3>::new_strip("ab").as_str(), "ab");
    assert_eq!(MaxSizeString::<4>::new_unchecked("hi").as_str(), "hi");
}

#[test]
fn scenario_five_required_fields_roundtrip() {
    let raw = "ST00012|Name=ACME|PersonalAcc=12345678901234567890|BankName=Bank|BIC=044525225|CorrespAcc=30101810400000000225";

    let parsed = Payment::parser().parse_from_str(raw).unwrap();
    let reqs = parsed.requisites();
    assert_eq!(reqs.len(), 5);
    assert!(matches!(reqs[0], Requisite::Name(_)));
    assert!(matches!(reqs[1], Requisite::PersonalAcc(_)));
    assert!(matches!(reqs[2], Requisite::BankName(_)));
    assert!(matches!(reqs[3], Requisite::BIC(_)));
    assert!(matches!(reqs[4], Requisite::CorrespAcc(_)));
    assert_eq!(parsed.get("Name"), Some("ACME"));
    assert_eq!(parsed.get("BIC"), Some("044525225"));

    assert_eq!(parsed.to_utf8_lossy().as_deref(), Ok(raw));
}

#[test]
fn scenario_swapped_required_fields_rejected() {
    let raw = "ST00012|PersonalAcc=12345678901234567890|Name=ACME|BankName=Bank|BIC=044525225|CorrespAcc=30101810400000000225";

    let expected = Err(Error::WrongRequiredRequisiteOrder {
        passed: "PersonalAcc".into(),
        expected: "Name".into(),
    });
    assert_eq!(Payment::parser().parse_from_str(raw), expected);
    assert_eq!(
        Payment::requisite_tolerance_parser().parse_from_str(raw),
        expected
    );
    // the loose policy does not enforce the order
    assert!(Payment::loose_parser().parse_from_str(raw).is_ok());
}

#[test]
fn scenario_unsupported_version() {
    let raw = "ST00022|Name=ACME|PersonalAcc=12345678901234567890|BankName=Bank|BIC=044525225|CorrespAcc=30101810400000000225";

    assert_eq!(
        Payment::parser().parse_from_str(raw),
        Err(Error::UnsupportedVersion { passed: *b"0002", current: *b"0001" })
    );
}

#[test]
fn scenario_loose_tolerates_garbage() {
    let parsed = Payment::loose_parser()
        .parse_from_str("ST00012|Name=X||garbage|  |")
        .unwrap();
    assert_eq!(parsed.get("Name"), Some("X"));
}

#[test]
fn configured_version_roundtrip() {
    let payment = Payment::builder(required_ascii())
        .with_version(*b"0002")
        .build();
    let bytes = payment.to_bytes().unwrap();
    let parsed = Payment::parser()
        .with_version(*b"0002")
        .parse_from_bytes(&bytes);
    assert_eq!(parsed, Ok(payment));
}

#[test]
fn configured_separator_roundtrip() {
    let payment = Payment::builder(required_ascii())
        .with_separator('#')
        .build();
    let text = payment.to_utf8_lossy().unwrap();
    assert!(text.starts_with("ST00012#Name=ACME#"));
    let parsed = Payment::parser().parse_from_str(&text);
    assert_eq!(parsed, Ok(payment));
}

#[test]
fn win1251_roundtrip_differs_from_utf8() {
    let payment = Payment::builder(RequiredRequisite {
        name: "Дом".to_max_size().unwrap(),
        personal_acc: "12345678901234567890".to_exact_size().unwrap(),
        bank_name: "Банк".to_max_size().unwrap(),
        bic: "044525225".to_exact_size().unwrap(),
        correstp_acc: "30101810400000000225".to_max_size().unwrap(),
    })
    .with_encdoing(PaymentEncoding::Win1251)
    .build();

    let bytes = payment.to_bytes().unwrap();
    // Windows-1251 renders each of the seven Cyrillic letters as one
    // byte; Utf-8 takes two.
    let utf8_body = "|Name=Дом|PersonalAcc=12345678901234567890|BankName=Банк|BIC=044525225|CorrespAcc=30101810400000000225";
    assert_eq!(bytes.len(), 7 + utf8_body.len() - 7);
    assert_eq!(bytes[7], b'|');

    let parsed = Payment::parser().parse_from_bytes(&bytes);
    assert_eq!(parsed, Ok(payment));
}

#[test]
fn koi8r_roundtrip() {
    let payment = Payment::builder(RequiredRequisite {
        name: "Мир".to_max_size().unwrap(),
        personal_acc: "12345678901234567890".to_exact_size().unwrap(),
        bank_name: "Банк".to_max_size().unwrap(),
        bic: "044525225".to_exact_size().unwrap(),
        correstp_acc: "30101810400000000225".to_max_size().unwrap(),
    })
    .with_encdoing(PaymentEncoding::Koi8R)
    .build();

    let bytes = payment.to_bytes().unwrap();
    let parsed = Payment::parser().parse_from_bytes(&bytes);
    assert_eq!(parsed, Ok(payment));

    // the same bytes are not what Utf-8 encoding would produce
    let utf8_bytes = Payment::builder(RequiredRequisite {
        name: "Мир".to_max_size().unwrap(),
        personal_acc: "12345678901234567890".to_exact_size().unwrap(),
        bank_name: "Банк".to_max_size().unwrap(),
        bic: "044525225".to_exact_size().unwrap(),
        correstp_acc: "30101810400000000225".to_max_size().unwrap(),
    })
    .build()
    .to_bytes()
    .unwrap();
    assert_ne!(bytes[8..], utf8_bytes[8..]);
}

#[test]
fn encoding_error_on_unrepresentable_character() {
    let payment = Payment::builder(RequiredRequisite {
        name: "ACME ✓".to_max_size().unwrap(),
        personal_acc: "12345678901234567890".to_exact_size().unwrap(),
        bank_name: "Bank".to_max_size().unwrap(),
        bic: "044525225".to_exact_size().unwrap(),
        correstp_acc: "30101810400000000225".to_max_size().unwrap(),
    })
    .with_encdoing(PaymentEncoding::Win1251)
    .build();

    assert_eq!(payment.to_bytes(), Err(Error::EncodingError));
    assert_eq!(payment.to_utf8_lossy(), Err(Error::EncodingError));
}

#[test]
fn decoding_error_on_invalid_utf8_body() {
    let mut bytes = b"ST00012|Name=A".to_vec();
    bytes.push(0xFF);
    bytes.extend_from_slice("|PersonalAcc=12345678901234567890|BankName=Bank|BIC=044525225|CorrespAcc=30101810400000000225".as_bytes());

    assert_eq!(
        Payment::parser().parse_from_bytes(&bytes),
        Err(Error::DecodingError)
    );
    // the loose policy reads the same bytes lossily and still succeeds
    let parsed = Payment::loose_parser().parse_from_bytes(&bytes).unwrap();
    assert_eq!(parsed.get("Name"), Some("A\u{FFFD}"));
}

#[test]
fn corrupted_header_on_short_input() {
    assert!(matches!(
        Payment::parser().parse_from_str("ST0001"),
        Err(Error::CorruptedHeader(_))
    ));
    assert!(matches!(
        Payment::parser().parse_from_bytes(b"ST"),
        Err(Error::CorruptedHeader(_))
    ));
}

#[test]
fn wrong_format_id() {
    assert_eq!(
        Payment::parser().parse_from_str("XY00012|Name=A"),
        Err(Error::WrongFormatId(*b"XY"))
    );
}

#[test]
fn unknown_encoding_code() {
    assert_eq!(
        Payment::parser().parse_from_bytes(b"ST00014|Name=A"),
        Err(Error::UnknownEncodingCode(b'4'))
    );
}

#[test]
fn text_input_must_declare_utf8() {
    // charset code '1' names Windows-1251: a text input rejects it...
    assert!(matches!(
        Payment::parser().parse_from_str("ST00011|Name=A"),
        Err(Error::CorruptedHeader(_))
    ));
    // ...except under the loose policy, which skips that check
    assert!(Payment::loose_parser().parse_from_str(
        "ST00011|Name=X||garbage"
    )
    .unwrap()
    .get("Name") == Some("X"));
}

#[test]
fn unknown_pair_without_extension() {
    let raw = "ST00012|Name=ACME|PersonalAcc=12345678901234567890|BankName=Bank|BIC=044525225|CorrespAcc=30101810400000000225|Mystery=1";
    assert_eq!(
        Payment::parser().parse_from_str(raw),
        Err(Error::UnknownPair("Mystery".into(), "1".into()))
    );
}

#[test]
fn wrong_pair_on_broken_constraint() {
    let raw = "ST00012|Name=ACME|PersonalAcc=123|BankName=Bank|BIC=044525225|CorrespAcc=30101810400000000225";
    assert_eq!(
        Payment::parser().parse_from_str(raw),
        Err(Error::WrongPair("PersonalAcc".into(), "123".into()))
    );
}

#[test]
fn wrong_pair_on_missing_delimiter() {
    let raw = "ST00012|Name=ACME|garbage|PersonalAcc=12345678901234567890|BankName=Bank|BIC=044525225|CorrespAcc=30101810400000000225";
    assert_eq!(
        Payment::parser().parse_from_str(raw),
        Err(Error::WrongPair("garbage".into(), "".into()))
    );
}

#[test]
fn tech_code_maps_both_directions() {
    let codes = [
        (TechCode::Mobile, "01"),
        (TechCode::HousingAndUtilites, "02"),
        (TechCode::Taxes, "03"),
        (TechCode::SecurityServices, "04"),
        (TechCode::FMS, "05"),
        (TechCode::PFR, "06"),
        (TechCode::LoanRepayments, "07"),
        (TechCode::EducationalInstitutions, "08"),
        (TechCode::InternetTV, "09"),
        (TechCode::Emoney, "10"),
        (TechCode::Vacation, "11"),
        (TechCode::InvestmentInsurance, "12"),
        (TechCode::SportHealth, "13"),
        (TechCode::Charity, "14"),
        (TechCode::Other, "15"),
    ];
    for (code, s) in codes {
        assert_eq!(code.as_str(), s);
        assert_eq!(TechCode::from_str(s), Ok(code));
    }
    assert_eq!(
        TechCode::from_str("16"),
        Err(Error::UnknownTechCode("16".into()))
    );
    assert_eq!(
        TechCode::from_str("1"),
        Err(Error::UnknownTechCode("1".into()))
    );
}

#[test]
fn unknown_tech_code_fails_strict_decode() {
    let raw = "ST00012|Name=ACME|PersonalAcc=12345678901234567890|BankName=Bank|BIC=044525225|CorrespAcc=30101810400000000225|TechCode=99";
    assert_eq!(
        Payment::parser().parse_from_str(raw),
        Err(Error::UnknownTechCode("99".into()))
    );
}

#[test]
fn tech_code_field_roundtrip() {
    let payment = Payment::builder(required_ascii())
        .with_additional_requisites(vec![Requisite::TechCode(TechCode::Taxes)])
        .build();
    let text = payment.to_utf8_lossy().unwrap();
    assert!(text.ends_with("|TechCode=03"));
    assert_eq!(Payment::parser().parse_from_str(&text), Ok(payment));
}

#[test]
fn get_returns_first_of_duplicate_keys() {
    let payment = Payment::builder(required_ascii())
        .with_additional_requisites(vec![
            Requisite::Sum("100".to_max_size().unwrap()),
            Requisite::Sum("200".to_max_size().unwrap()),
        ])
        .build();
    assert_eq!(payment.get("Sum"), Some("100"));
    assert_eq!(payment.get("NoSuchKey"), None);
}

#[test]
fn empty_value_is_kept() {
    let raw = "ST00012|Name=ACME|PersonalAcc=12345678901234567890|BankName=Bank|BIC=044525225|CorrespAcc=30101810400000000225|Purpose=";
    let parsed = Payment::parser().parse_from_str(raw).unwrap();
    assert_eq!(parsed.get("Purpose"), Some(""));
    assert_eq!(parsed.to_utf8_lossy().as_deref(), Ok(raw));
}

#[test]
fn contract_and_pers_acc_keys_parse() {
    let raw = "ST00012|Name=ACME|PersonalAcc=12345678901234567890|BankName=Bank|BIC=044525225|CorrespAcc=30101810400000000225|Contract=17-1|PersAcc=55";
    let parsed = Payment::parser().parse_from_str(raw).unwrap();
    assert_eq!(parsed.get("Contract"), Some("17-1"));
    assert_eq!(parsed.get("PersAcc"), Some("55"));
    assert_eq!(parsed.to_utf8_lossy().as_deref(), Ok(raw));
}

#[test]
fn header_accessors_report_parsed_preamble() {
    let raw = "ST00012|Name=ACME|PersonalAcc=12345678901234567890|BankName=Bank|BIC=044525225|CorrespAcc=30101810400000000225";
    let parsed = Payment::parser().parse_from_str(raw).unwrap();
    let header = parsed.header();
    assert_eq!(header.format_id(), *b"ST");
    assert_eq!(header.version(), *b"0001");
    assert_eq!(header.encoding(), PaymentEncoding::Utf8);
    assert_eq!(header.separator(), b'|');
}

#[test]
fn error_messages_name_their_cause() {
    assert_eq!(
        Error::UnknownEncodingCode(52).message(),
        "unknown charset code 52"
    );
    assert_eq!(Error::UnknownEncodingCode(7).message(), "unknown charset code 7");
    assert_eq!(
        Error::UnknownEncodingCode(200).message(),
        "unknown charset code 200"
    );
    assert_eq!(
        Error::UnsupportedVersion { passed: *b"0002", current: *b"0001" }.message(),
        "version 0002 is not supported, the current version is 0001"
    );
    assert_eq!(
        Error::WrongFormatId(*b"XY").message(),
        "wrong format id XY"
    );
    assert_eq!(
        Error::UnknownPair("Foo".into(), "1".into()).message(),
        "unknown requisite: Foo=1"
    );
    assert_eq!(
        Error::WrongRequiredRequisiteOrder { passed: "BIC".into(), expected: "Name".into() }
            .message(),
        "wrong order of the required requisites: expected Name, found BIC"
    );
    assert_eq!(Error::DecodingError.message(), "the body could not be decoded");
    assert_eq!(Error::EncodingError.message(), "the body could not be encoded");
}

#[test]
fn loose_reads_win1251_bytes() {
    let payment = Payment::builder(RequiredRequisite {
        name: "Дом".to_max_size().unwrap(),
        personal_acc: "12345678901234567890".to_exact_size().unwrap(),
        bank_name: "Банк".to_max_size().unwrap(),
        bic: "044525225".to_exact_size().unwrap(),
        correstp_acc: "30101810400000000225".to_max_size().unwrap(),
    })
    .with_encdoing(PaymentEncoding::Win1251)
    .build();
    let bytes = payment.to_bytes().unwrap();

    let parsed = Payment::loose_parser().parse_from_bytes(&bytes).unwrap();
    assert_eq!(parsed.get("Name"), Some("Дом"));
    assert_eq!(parsed.get("BankName"), Some("Банк"));
}

#[test]
fn loose_reads_koi8r_bytes() {
    let payment = Payment::builder(RequiredRequisite {
        name: "Мир".to_max_size().unwrap(),
        personal_acc: "12345678901234567890".to_exact_size().unwrap(),
        bank_name: "Банк".to_max_size().unwrap(),
        bic: "044525225".to_exact_size().unwrap(),
        correstp_acc: "30101810400000000225".to_max_size().unwrap(),
    })
    .with_encdoing(PaymentEncoding::Koi8R)
    .build();
    let bytes = payment.to_bytes().unwrap();

    let parsed = Payment::loose_parser().parse_from_bytes(&bytes).unwrap();
    assert_eq!(parsed.get("Name"), Some("Мир"));
    assert_eq!(parsed.get("BankName"), Some("Банк"));
}
