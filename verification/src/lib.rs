//! Codec for the ST00012 payment-order text format: a fixed eight-byte
//! header followed by separator-joined `Key=Value` pairs, encoded in one
//! of three supported charsets, with three decoding policies of different
//! strictness.

mod charset;
mod custom;
mod error;
mod header;
mod laws;
mod parser;
mod payment;
mod requisite;
mod string_types;
mod strutil;
pub mod structs;
mod textmodel;

pub use charset::{
    koi8r_decoded, koi8r_decoded_lossy, koi8r_encoded, spec_decode_body, spec_decode_body_lossy,
    spec_encode_body, utf8_decoded_lossy, win1251_decoded, win1251_decoded_lossy, win1251_encoded,
};
pub use custom::{CustomRequisites, NoCustomRequisites};
pub use error::{
    code_char, code_chars, decimal_chars, digit_char, spec_message, Error, ErrorV,
};
pub use header::{
    msg_short_header, msg_text_not_utf8, spec_enc_char, spec_enc_code, spec_enc_from,
    spec_parse_header, HeaderV, PaymentEncoding, PaymentHeader, FORMAT_ID_BYTES,
    VERSION_0001_BYTES,
};
pub use laws::{
    lemma_encode_decode_roundtrip, lemma_gost_text_roundtrip, lemma_no_extension_unknown_pair,
    lemma_policy_order_enforcement, lemma_strict_order_failure, lemma_tolerant_omits,
    lemma_validate_exact, required_front,
};
pub use parser::{
    char_byte, decode_matches, fields_wf, order_err, spec_loose_from_bytes, spec_loose_from_text,
    spec_parse_chunk, spec_read_strict, spec_read_tolerant, spec_strict_from_bytes,
    spec_strict_from_text, spec_tolerant_from_bytes, spec_tolerant_from_text,
    spec_validate_required, text_header_bytes, LooseParser, ParserStrategy, ParserStrategyType,
    PaymentParser, RequisiteToleranceParser, StrictParser,
};
pub use payment::{
    body_text, byte_char, default_header, fields_of, header_bytes, pair_text, pair_texts,
    spec_get, spec_payment_bytes, Payment, PaymentBuilder, PaymentV, RequiredRequisite,
};
pub use requisite::{
    field_is_required, field_key, field_value, field_wf, lemma_parse_known_inverts,
    lemma_tech_roundtrip, pair_parse_post, spec_parse_known, spec_tech_from, spec_tech_str,
    FieldV, KnownParse, Requisite, TechCode,
};
pub use string_types::{ExactSizeString, MaxSizeString, StringExt};
pub use textmodel::{
    chunk_kv, join_text, lemma_chunk_kv_of_pair, lemma_split_join, split_text,
};
