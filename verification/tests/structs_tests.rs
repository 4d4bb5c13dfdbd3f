use st00012::structs::Payment;
use st00012::{RequiredRequisite, StringExt};

#[test]
fn structs_encoding_test() {
    let payment = Payment::builder().build(RequiredRequisite {
        name: "ООО «Три кита»".to_max_size().unwrap(),
        personal_acc: "40702810138250123017".to_exact_size().unwrap(),
        bank_name: "ОАО \"БАНК\"".to_max_size().unwrap(),
        bic: "044525225".to_exact_size().unwrap(),
        correstp_acc: "30101810400000000225".to_max_size().unwrap(),
    });

    let payment = payment.to_gost_format();

    assert_eq!(payment, "ST00012|Name=ООО «Три кита»|PersonalAcc=40702810138250123017|BankName=ОАО \"БАНК\"|BIC=044525225|CorrespAcc=30101810400000000225")
}

#[test]
fn structs_decoding_bytes_test() {
    let raw = "ST00012|Name=ООО «Три кита»|PersonalAcc=40702810138250123017|BankName=ОАО \"БАНК\"|BIC=044525225|CorrespAcc=30101810400000000225".as_bytes();

    let parsed_payment = Payment::parser().from_bytes(raw);

    let payment = Payment::builder().build(RequiredRequisite {
        name: "ООО «Три кита»".to_max_size().unwrap(),
        personal_acc: "40702810138250123017".to_exact_size().unwrap(),
        bank_name: "ОАО \"БАНК\"".to_max_size().unwrap(),
        bic: "044525225".to_exact_size().unwrap(),
        correstp_acc: "30101810400000000225".to_max_size().unwrap(),
    });

    assert_eq!(parsed_payment, Ok(payment));
}

#[test]
fn structs_decoding_string_test() {
    let raw = "ST00012|Name=ООО «Три кита»|PersonalAcc=40702810138250123017|BankName=ОАО \"БАНК\"|BIC=044525225|CorrespAcc=30101810400000000225";

    let parsed_payment = Payment::parser().from_str(raw);

    let payment = Payment::builder().build(RequiredRequisite {
        name: "ООО «Три кита»".to_max_size().unwrap(),
        personal_acc: "40702810138250123017".to_exact_size().unwrap(),
        bank_name: "ОАО \"БАНК\"".to_max_size().unwrap(),
        bic: "044525225".to_exact_size().unwrap(),
        correstp_acc: "30101810400000000225".to_max_size().unwrap(),
    });

    assert_eq!(parsed_payment, Ok(payment));
}

#[test]
fn structs_unknown_key_is_kept_as_custom() {
    let raw = "ST00012|Name=ACME|PersonalAcc=12345678901234567890|BankName=Bank|BIC=044525225|CorrespAcc=30101810400000000225|Mystery=1";

    let parsed = Payment::parser().from_str(raw).unwrap();
    // the open slot keeps the pair whole, so the text renders back
    assert_eq!(parsed.to_gost_format(), raw);
}

#[test]
fn structs_additional_requisites_follow_required() {
    let payment = Payment::builder()
        .with_additional_requisites(vec![st00012::structs::Requisite::Sum(
            "100".to_max_size().unwrap(),
        )])
        .build(RequiredRequisite {
            name: "ACME".to_max_size().unwrap(),
            personal_acc: "12345678901234567890".to_exact_size().unwrap(),
            bank_name: "Bank".to_max_size().unwrap(),
            bic: "044525225".to_exact_size().unwrap(),
            correstp_acc: "30101810400000000225".to_max_size().unwrap(),
        });
    let text = payment.to_gost_format();
    assert_eq!(
        text,
        "ST00012|Name=ACME|PersonalAcc=12345678901234567890|BankName=Bank|BIC=044525225|CorrespAcc=30101810400000000225|Sum=100"
    );
    assert_eq!(Payment::parser().from_str(&text), Ok(payment));
}
