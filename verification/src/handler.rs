//! The invocation handler: on every call it builds one fixed asset-metadata
//! record, encodes it canonically, and delivers the bytes into the
//! return-data slot, failing cleanly (and leaving the slot untouched) when
//! the payload cannot be produced or does not fit.

use crate::channel::ReturnDataSlot;
use crate::record::try_encode;
use crate::record::Record;
use crate::record::RecordError;
use crate::record::spec_decodable;
use vstd::bytes::lemma_auto_spec_u32_to_from_le_bytes;
use vstd::bytes::spec_u32_from_le_bytes;
use vstd::bytes::spec_u32_to_le_bytes;
use vstd::prelude::*;
use vstd::utf8::decode_utf8;
use vstd::utf8::encode_utf8;
use vstd::utf8::encode_utf8_decode_utf8;
use vstd::utf8::encode_utf8_valid_utf8;
use vstd::utf8::is_ascii_chars;
use vstd::utf8::is_ascii_chars_encode_utf8;

verus! {

/// The text field of the record this program returns.
pub open spec fn spec_fixture_type() -> Seq<char> {
    "PNG"@
}

/// The integer field of the record this program returns.
pub open spec fn spec_fixture_size() -> u32 {
    100
}

/// The canonical encoding of the fixture record: a 3-byte text length,
/// the text's UTF-8 bytes, and the 32-bit size, all little-endian.
pub open spec fn spec_fixture_encoding() -> Seq<u8> {
    spec_u32_to_le_bytes(3) + encode_utf8(spec_fixture_type()) + spec_u32_to_le_bytes(
        spec_fixture_size(),
    )
}

/// Whatever the invocation context, the bytes a successful invocation
/// leaves in the return-data slot are a decodable record encoding, and they
/// decode to the fixture's field values: text "PNG" and size 100.
pub proof fn lemma_fixture_encoding_decodes()
    ensures
        spec_decodable(spec_fixture_encoding()),
        decode_utf8(spec_fixture_encoding().subrange(4, spec_fixture_encoding().len() - 4))
            == spec_fixture_type(),
        spec_u32_from_le_bytes(
            spec_fixture_encoding().subrange(
                spec_fixture_encoding().len() - 4,
                spec_fixture_encoding().len() as int,
            ),
        ) == spec_fixture_size(),
{
    lemma_auto_spec_u32_to_from_le_bytes();
    reveal_strlit("PNG");
    let enc = spec_fixture_encoding();
    let tb = encode_utf8(spec_fixture_type());
    assert(is_ascii_chars(spec_fixture_type()));
    is_ascii_chars_encode_utf8(spec_fixture_type());
    encode_utf8_valid_utf8(spec_fixture_type());
    encode_utf8_decode_utf8(spec_fixture_type());
    assert(enc.subrange(0, 4) =~= spec_u32_to_le_bytes(3));
    assert(enc.subrange(4, enc.len() - 4) =~= tb);
    assert(enc.subrange(enc.len() - 4, enc.len() as int) =~= spec_u32_to_le_bytes(
        spec_fixture_size(),
    ));
}

/// Build the record this program returns. Its field values are fixed; no
/// part of the invocation context parameterizes them.
pub fn build_fixture_record() -> (record: Record)
    ensures
        record.asset_type@ == spec_fixture_type(),
        record.asset_size == spec_fixture_size(),
        record.encodable(),
        record.spec_encoding() == spec_fixture_encoding(),
{
    let record = Record { asset_type: "PNG".to_owned(), asset_size: 100 };
    proof {
        reveal_strlit("PNG");
        assert(is_ascii_chars(record.asset_type@));
        is_ascii_chars_encode_utf8(record.asset_type@);
    }
    record
}

/// Encode a record and deliver the bytes into the return-data slot.
/// Exactly the encodable records whose encoding fits the slot's capacity
/// are delivered; on any failure the slot keeps its previous contents, so
/// no partial or oversized payload is ever observable.
pub fn deliver_record(record: &Record, slot: &mut ReturnDataSlot) -> (r: Result<(), RecordError>)
    ensures
        r is Ok <==> record.encodable() && record.spec_encoding().len() <= old(
            slot,
        ).spec_capacity(),
        r is Ok ==> final(slot).spec_data() == Some(record.spec_encoding()),
        r is Err ==> *final(slot) == *old(slot),
        !record.encodable() ==> r == Err::<(), RecordError>(RecordError::EncodingFailed),
        record.encodable() && record.spec_encoding().len() > old(slot).spec_capacity() ==> r
            == Err::<(), RecordError>(RecordError::ReturnDataTooLarge),
        final(slot).spec_capacity() == old(slot).spec_capacity(),
{
    let encoded = match try_encode(record) {
        Ok(v) => v,
        Err(e) => {
            return Err(e);
        },
    };
    if encoded.len() > slot.capacity() {
        return Err(RecordError::ReturnDataTooLarge);
    }
    slot.set(encoded.as_slice());
    Ok(())
}

/// The program's entry-point logic, one whole invocation: build the fixture
/// record, encode it, and deliver the bytes. On success the slot holds
/// exactly the fixture's canonical encoding; if it does not fit, the
/// invocation fails with `ReturnDataTooLarge` and the slot is untouched.
pub fn handle_invocation(slot: &mut ReturnDataSlot) -> (r: Result<(), RecordError>)
    ensures
        r is Ok <==> spec_fixture_encoding().len() <= old(slot).spec_capacity(),
        r is Ok ==> final(slot).spec_data() == Some(spec_fixture_encoding()),
        r is Err ==> r == Err::<(), RecordError>(RecordError::ReturnDataTooLarge) && *final(slot)
            == *old(slot),
        final(slot).spec_capacity() == old(slot).spec_capacity(),
{
    let record = build_fixture_record();
    deliver_record(&record, slot)
}

} // verus!
