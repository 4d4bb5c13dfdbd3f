//! The laws of the codec: what the policies guarantee across whole
//! encode/decode runs, proved once and for all inputs.

use vstd::prelude::*;

verus! {

use vstd::utf8::{encode_utf8_decode_utf8, encode_utf8_valid_utf8};

use crate::custom::{CustomRequisites, NoCustomRequisites};
use crate::error::ErrorV;
use crate::header::{spec_enc_code, spec_parse_header, HeaderV, PaymentEncoding, FORMAT_ID_BYTES};
use crate::parser::{
    fields_wf, spec_loose_from_bytes, spec_loose_from_text, spec_parse_chunk, spec_read_strict,
    spec_read_tolerant, spec_strict_from_bytes, spec_strict_from_text, spec_tolerant_from_bytes,
    spec_tolerant_from_text, spec_validate_required,
};
use crate::payment::{
    body_text, byte_char, header_bytes, pair_text, pair_texts, spec_payment_bytes, PaymentV,
};
use crate::requisite::{
    field_key, field_value, lemma_key_no_eq, lemma_parse_known_inverts, spec_parse_known, FieldV,
};
use crate::textmodel::{
    chunk_kv, lemma_chunk_kv_of_pair, lemma_split_join, split_text,
};

/// The ordering invariant of a payment's field sequence: the five
/// required kinds stand first, in their fixed order.
pub open spec fn required_front(fields: Seq<FieldV>) -> bool {
    &&& fields.len() >= 5
    &&& fields[0] is Name
    &&& fields[1] is PersonalAcc
    &&& fields[2] is BankName
    &&& fields[3] is BIC
    &&& fields[4] is CorrespAcc
}

/// The required-order check is exact: it passes precisely the sequences
/// whose first five fields are the required kinds in their fixed order.
pub proof fn lemma_validate_exact(fields: Seq<FieldV>)
    ensures
        spec_validate_required(fields) is None <==> required_front(fields),
{
}

/// The wire text of a well-formed built-in field stays clear of a
/// separator that appears in neither its key nor its value and is not
/// the pair delimiter.
proof fn lemma_pair_text_no_sep(f: FieldV, sep: char)
    requires
        !field_key(f).contains(sep),
        !field_value(f).contains(sep),
        sep != '=',
    ensures
        !pair_text(f).contains(sep),
{
    let key = field_key(f);
    let value = field_value(f);
    let pt = pair_text(f);
    if pt.contains(sep) {
        let j = choose|j: int| 0 <= j < pt.len() && pt[j] == sep;
        if j < key.len() {
            assert(key[j] == sep);
            assert(key.contains(sep));
        } else if j == key.len() {
            assert(pt[j] == '=');
        } else {
            assert(value[j - key.len() - 1] == sep);
            assert(value.contains(sep));
        }
    }
}

/// Strict reading takes the wire texts of well-formed built-in fields
/// back to exactly those fields.
proof fn lemma_read_strict_of_pairs<T: CustomRequisites>(fields: Seq<FieldV>)
    requires
        fields_wf(fields),
        forall|i: int| 0 <= i < fields.len() ==> !((#[trigger] fields[i]) is Custom),
    ensures
        spec_read_strict::<T>(pair_texts(fields)) == Ok::<_, ErrorV>(fields),
    decreases fields.len(),
{
    let texts = pair_texts(fields);
    if fields.len() == 0 {
        assert(texts =~= Seq::<Seq<char>>::empty());
        assert(spec_read_strict::<T>(texts) == Ok::<_, ErrorV>(Seq::<FieldV>::empty()));
        assert(fields =~= Seq::<FieldV>::empty());
    } else {
        let f = fields[0];
        assert(texts[0] == pair_text(f));
        lemma_key_no_eq(f);
        lemma_chunk_kv_of_pair(field_key(f), field_value(f));
        lemma_parse_known_inverts(f);
        assert(spec_parse_chunk::<T>(texts[0]) == Ok::<_, ErrorV>(f));
        assert(texts.drop_first() =~= pair_texts(fields.drop_first()));
        lemma_read_strict_of_pairs::<T>(fields.drop_first());
        assert(seq![f] + fields.drop_first() =~= fields);
    }
}

/// Tolerant reading of the same wire texts drops nothing and yields the
/// same fields.
proof fn lemma_read_tolerant_of_pairs<T: CustomRequisites>(fields: Seq<FieldV>)
    requires
        fields_wf(fields),
        forall|i: int| 0 <= i < fields.len() ==> !((#[trigger] fields[i]) is Custom),
    ensures
        spec_read_tolerant::<T>(pair_texts(fields)) == fields,
    decreases fields.len(),
{
    let texts = pair_texts(fields);
    if fields.len() == 0 {
        assert(texts =~= Seq::<Seq<char>>::empty());
        assert(fields =~= Seq::<FieldV>::empty());
    } else {
        let f = fields[0];
        assert(texts[0] == pair_text(f));
        lemma_key_no_eq(f);
        lemma_chunk_kv_of_pair(field_key(f), field_value(f));
        lemma_parse_known_inverts(f);
        assert(spec_parse_chunk::<T>(texts[0]) == Ok::<_, ErrorV>(f));
        assert(texts.drop_first() =~= pair_texts(fields.drop_first()));
        lemma_read_tolerant_of_pairs::<T>(fields.drop_first());
        assert(seq![f] + fields.drop_first() =~= fields);
    }
}

/// Round trip: a payment in the Utf-8 charset, whose fields are
/// well-formed built-in kinds opening with the five required ones, and
/// whose separator appears in no key or value and is not `=`, encodes to
/// bytes that both the strict and the requisite-tolerant policy decode
/// back to exactly that payment, under a parser expecting its version.
pub proof fn lemma_encode_decode_roundtrip<T: CustomRequisites>(p: PaymentV, version: Seq<u8>)
    requires
        p.header.format_id == FORMAT_ID_BYTES@,
        p.header.version == version,
        version.len() == 4,
        p.header.encoding == PaymentEncoding::Utf8,
        required_front(p.fields),
        fields_wf(p.fields),
        forall|i: int| 0 <= i < p.fields.len() ==> !((#[trigger] p.fields[i]) is Custom),
        forall|i: int|
            0 <= i < p.fields.len() ==> !field_key(#[trigger] p.fields[i]).contains(
                byte_char(p.header.separator),
            ) && !field_value(p.fields[i]).contains(byte_char(p.header.separator)),
        byte_char(p.header.separator) != '=',
    ensures
        spec_payment_bytes(p) matches Some(b) && spec_strict_from_bytes::<T>(b, version) == Ok::<
            _,
            ErrorV,
        >(p) && spec_tolerant_from_bytes::<T>(b, version) == Ok::<_, ErrorV>(p),
{
    broadcast use encode_utf8_valid_utf8, encode_utf8_decode_utf8;

    let sep = byte_char(p.header.separator);
    let texts = pair_texts(p.fields);
    let body = body_text(p.fields, sep);
    let body_bytes = vstd::utf8::encode_utf8(body);
    let bytes = header_bytes(p.header) + seq![p.header.separator] + body_bytes;
    assert(spec_payment_bytes(p) == Some(bytes));

    // The header reads back as it was written.
    assert(bytes.len() >= 8);
    assert(bytes[0] == FORMAT_ID_BYTES@[0] && bytes[1] == FORMAT_ID_BYTES@[1]);
    assert(bytes.subrange(2, 6) =~= version);
    assert(bytes[6] == spec_enc_code(PaymentEncoding::Utf8));
    assert(bytes[7] == p.header.separator);
    let h = HeaderV {
        format_id: FORMAT_ID_BYTES@,
        version: version,
        encoding: PaymentEncoding::Utf8,
        separator: p.header.separator,
    };
    assert(spec_parse_header(bytes, version) == Ok::<_, ErrorV>(h));
    assert(h =~= p.header);

    // The body bytes decode back to the body text.
    assert(bytes.skip(8) =~= body_bytes);

    // The body text splits back into the wire texts of the fields.
    assert forall|i: int| 0 <= i < texts.len() implies !(#[trigger] texts[i]).contains(sep) by {
        assert(texts[i] == pair_text(p.fields[i]));
        lemma_pair_text_no_sep(p.fields[i], sep);
    }
    lemma_split_join(texts, sep);

    // The wire texts parse back into the fields, under either reading.
    lemma_read_strict_of_pairs::<T>(p.fields);
    lemma_read_tolerant_of_pairs::<T>(p.fields);
    lemma_validate_exact(p.fields);
    assert((PaymentV { header: h, fields: p.fields }) =~= p);
}

/// The policies and the ordering invariant: a payment decoded by the
/// strict or the requisite-tolerant policy always opens with the five
/// required fields in their fixed order; the loose policy checks no
/// order and, once the header is read, never fails, whatever the body
/// holds.
pub proof fn lemma_policy_order_enforcement<T: CustomRequisites>(bytes: Seq<u8>, text: Seq<char>, version: Seq<u8>)
    ensures
        spec_strict_from_bytes::<T>(bytes, version) matches Ok(p) ==> required_front(p.fields),
        spec_tolerant_from_bytes::<T>(bytes, version) matches Ok(p) ==> required_front(p.fields),
        spec_strict_from_text::<T>(text, version) matches Ok(p) ==> required_front(p.fields),
        spec_tolerant_from_text::<T>(text, version) matches Ok(p) ==> required_front(p.fields),
        spec_loose_from_bytes::<T>(bytes, version) is Ok <==> spec_parse_header(bytes, version)
            is Ok,
        spec_loose_from_text::<T>(text, version) is Ok <==> spec_parse_header(
            crate::parser::text_header_bytes(text),
            version,
        ) is Ok,
{
}

/// The strict policy fails on a wrong required-field order with exactly
/// the order error: the key found at the first mismatching position, and
/// the key expected there.
pub proof fn lemma_strict_order_failure<T: CustomRequisites>(
    bytes: Seq<u8>,
    version: Seq<u8>,
    h: HeaderV,
    data: Seq<char>,
    fields: Seq<FieldV>,
    e: ErrorV,
)
    requires
        spec_parse_header(bytes, version) == Ok::<_, ErrorV>(h),
        crate::charset::spec_decode_body(h.encoding, bytes.skip(8)) == Some(data),
        spec_read_strict::<T>(split_text(data, byte_char(h.separator))) == Ok::<_, ErrorV>(fields),
        spec_validate_required(fields) == Some(e),
    ensures
        spec_strict_from_bytes::<T>(bytes, version) == Err::<PaymentV, _>(e),
        e is WrongRequiredRequisiteOrder,
{
}

/// The requisite-tolerant policy fails on a wrong required-field order
/// with exactly the order error, even though it drops failing pairs.
pub proof fn lemma_tolerant_order_failure<T: CustomRequisites>(
    bytes: Seq<u8>,
    version: Seq<u8>,
    h: HeaderV,
    data: Seq<char>,
    e: ErrorV,
)
    requires
        spec_parse_header(bytes, version) == Ok::<_, ErrorV>(h),
        crate::charset::spec_decode_body(h.encoding, bytes.skip(8)) == Some(data),
        spec_validate_required(
            spec_read_tolerant::<T>(split_text(data, byte_char(h.separator))),
        ) == Some(e),
    ensures
        spec_tolerant_from_bytes::<T>(bytes, version) == Err::<PaymentV, _>(e),
        e is WrongRequiredRequisiteOrder,
{
}

/// Dropping is silent: omitting one unparseable chunk leaves the
/// tolerant reading unchanged.
pub proof fn lemma_tolerant_omits<T: CustomRequisites>(chunks: Seq<Seq<char>>, i: int)
    requires
        0 <= i < chunks.len(),
        spec_parse_chunk::<T>(chunks[i]) is Err,
    ensures
        spec_read_tolerant::<T>(chunks) == spec_read_tolerant::<T>(chunks.remove(i)),
    decreases chunks.len(),
{
    if i == 0 {
        assert(chunks.remove(0) =~= chunks.drop_first());
    } else {
        assert(chunks.drop_first()[i - 1] == chunks[i]);
        lemma_tolerant_omits::<T>(chunks.drop_first(), i - 1);
        assert(chunks.remove(i).drop_first() =~= chunks.drop_first().remove(i - 1));
        assert(chunks.remove(i)[0] == chunks[0]);
        assert(chunks.remove(i).len() > 0);
    }
}

/// Unknown keys route to the extension point; with no extension
/// installed, a pair with an unknown key fails with exactly
/// `UnknownPair` over that key and value.
pub proof fn lemma_no_extension_unknown_pair(chunk: Seq<char>, key: Seq<char>, value: Seq<char>)
    requires
        chunk_kv(chunk) == Some((key, value)),
        crate::requisite::spec_parse_known(key, value) is Unknown,
    ensures
        spec_parse_chunk::<NoCustomRequisites>(chunk) == Err::<FieldV, _>(
            ErrorV::UnknownPair(key, value),
        ),
{
}


/// Reading of this module's open-slot shape takes the wire texts of
/// well-formed fields back to exactly those fields, custom ones
/// included, as long as no custom field shadows a built-in key or holds
/// `=` in its key.
proof fn lemma_read_open_of_pairs(fields: Seq<FieldV>)
    requires
        fields_wf(fields),
        forall|i: int|
            0 <= i < fields.len() && (#[trigger] fields[i]) is Custom ==> spec_parse_known(
                field_key(fields[i]),
                field_value(fields[i]),
            ) is Unknown && !field_key(fields[i]).contains('='),
    ensures
        crate::structs::spec_read_open(pair_texts(fields)) == Ok::<_, ErrorV>(fields),
    decreases fields.len(),
{
    let texts = pair_texts(fields);
    if fields.len() == 0 {
        assert(texts =~= Seq::<Seq<char>>::empty());
        assert(fields =~= Seq::<FieldV>::empty());
    } else {
        let f = fields[0];
        assert(texts[0] == pair_text(f));
        if f is Custom {
            lemma_chunk_kv_of_pair(field_key(f), field_value(f));
            assert(crate::structs::spec_parse_chunk_open(texts[0]) == Ok::<_, ErrorV>(f));
        } else {
            lemma_key_no_eq(f);
            lemma_chunk_kv_of_pair(field_key(f), field_value(f));
            lemma_parse_known_inverts(f);
            assert(crate::structs::spec_parse_chunk_open(texts[0]) == Ok::<_, ErrorV>(f));
        }
        assert(texts.drop_first() =~= pair_texts(fields.drop_first()));
        lemma_read_open_of_pairs(fields.drop_first());
        assert(seq![f] + fields.drop_first() =~= fields);
    }
}

/// Round trip of the rendered text: a Utf-8 payment of the open-slot
/// shape, well-formed and opening with the five required fields, with a
/// separator clear of every key and value and of `=`, and whose custom
/// fields shadow no built-in key, renders to a text that the strict
/// parser of that shape reads back to exactly that payment.
pub proof fn lemma_gost_text_roundtrip(p: PaymentV, version: Seq<u8>)
    requires
        p.header.format_id == FORMAT_ID_BYTES@,
        p.header.version == version,
        version.len() == 4,
        p.header.encoding == PaymentEncoding::Utf8,
        required_front(p.fields),
        fields_wf(p.fields),
        forall|i: int|
            0 <= i < p.fields.len() && (#[trigger] p.fields[i]) is Custom ==> spec_parse_known(
                field_key(p.fields[i]),
                field_value(p.fields[i]),
            ) is Unknown && !field_key(p.fields[i]).contains('='),
        forall|i: int|
            0 <= i < p.fields.len() ==> !field_key(#[trigger] p.fields[i]).contains(
                byte_char(p.header.separator),
            ) && !field_value(p.fields[i]).contains(byte_char(p.header.separator)),
        byte_char(p.header.separator) != '=',
    ensures
        crate::structs::spec_structs_from_text(crate::structs::spec_gost_text(p), version)
            == Ok::<_, ErrorV>(p),
{
    let sep = byte_char(p.header.separator);
    let texts = pair_texts(p.fields);
    let body = body_text(p.fields, sep);
    let text = crate::structs::spec_gost_text(p);
    assert(text == crate::structs::header_text(p.header) + seq![sep] + body);

    // The eight leading characters narrow back to the header bytes.
    let hdr8 = seq![
        p.header.format_id[0],
        p.header.format_id[1],
        p.header.version[0],
        p.header.version[1],
        p.header.version[2],
        p.header.version[3],
        spec_enc_code(p.header.encoding),
        p.header.separator,
    ];
    assert(text.len() >= 8);
    assert(crate::parser::text_header_bytes(text) =~= hdr8);
    let h = HeaderV {
        format_id: FORMAT_ID_BYTES@,
        version: version,
        encoding: PaymentEncoding::Utf8,
        separator: p.header.separator,
    };
    assert(hdr8.subrange(2, 6) =~= version);
    assert(spec_parse_header(hdr8, version) == Ok::<_, ErrorV>(h));
    assert(h =~= p.header);

    // The rest of the text is the body, which splits and parses back.
    assert(text.skip(8) =~= body);
    assert forall|i: int| 0 <= i < texts.len() implies !(#[trigger] texts[i]).contains(sep) by {
        assert(texts[i] == pair_text(p.fields[i]));
        lemma_pair_text_no_sep(p.fields[i], sep);
    }
    lemma_split_join(texts, sep);
    lemma_read_open_of_pairs(p.fields);
    lemma_validate_exact(p.fields);
    assert((PaymentV { header: h, fields: p.fields }) =~= p);
}

} // verus!
