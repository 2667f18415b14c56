//! The record model: the structured value the program returns to its caller,
//! together with its canonical binary encoding.
//!
//! The canonical layout is fixed and self-describing up to a length prefix:
//! a 4-byte little-endian length prefix, the UTF-8 bytes of `asset_type`,
//! then `asset_size` as a 4-byte little-endian unsigned integer.

use vstd::bytes::lemma_auto_spec_u32_to_from_le_bytes;
use vstd::bytes::spec_u32_from_le_bytes;
use vstd::bytes::spec_u32_to_le_bytes;
use vstd::bytes::u32_from_le_bytes;
use vstd::bytes::u32_to_le_bytes;
use vstd::prelude::*;
use vstd::slice::slice_subrange;
use vstd::slice::slice_to_vec;
use vstd::utf8::decode_utf8;
use vstd::utf8::decode_utf8_encode_utf8;
use vstd::utf8::encode_utf8;
use vstd::utf8::encode_utf8_decode_utf8;
use vstd::utf8::encode_utf8_valid_utf8;
use vstd::utf8::valid_utf8;

verus! {

/// The ways an invocation can fail before the host sees a result.
#[derive(Clone, Copy, Debug, PartialEq, Eq, Structural)]
pub enum RecordError {
    /// A buffer handed to `decode` does not carry a complete, well-formed
    /// canonical encoding of a record.
    MalformedRecord,
    /// The record's text field is too long for the 32-bit length prefix, so
    /// no canonical encoding of the record exists.
    EncodingFailed,
    /// The encoded record does not fit the host's return-data channel.
    ReturnDataTooLarge,
}

/// One piece of asset metadata: a UTF-8 text field and a fixed-width
/// unsigned integer.
#[derive(Debug)]
pub struct Record {
    pub asset_type: String,
    pub asset_size: u32,
}

impl Record {
    /// The UTF-8 bytes of the text field; this is what the canonical
    /// encoding carries between the length prefix and the integer trailer.
    pub open spec fn spec_type_bytes(self) -> Seq<u8> {
        encode_utf8(self.asset_type@)
    }

    /// A record is encodable exactly when its text field's UTF-8 form fits
    /// the 32-bit length prefix.
    pub open spec fn encodable(self) -> bool {
        self.spec_type_bytes().len() <= u32::MAX
    }

    /// The canonical encoding: little-endian 32-bit byte length of the text,
    /// the text's UTF-8 bytes, then the little-endian 32-bit `asset_size`.
    pub open spec fn spec_encoding(self) -> Seq<u8>
        recommends
            self.encodable(),
    {
        spec_u32_to_le_bytes(self.spec_type_bytes().len() as u32) + self.spec_type_bytes()
            + spec_u32_to_le_bytes(self.asset_size)
    }
}

impl PartialEq for Record {
    fn eq(&self, other: &Record) -> (r: bool) {
        self.asset_type == other.asset_type && self.asset_size == other.asset_size
    }
}

impl vstd::std_specs::cmp::PartialEqSpecImpl for Record {
    open spec fn obeys_eq_spec() -> bool {
        true
    }

    open spec fn eq_spec(&self, other: &Record) -> bool {
        self.asset_type@ == other.asset_type@ && self.asset_size == other.asset_size
    }
}

/// True of exactly the byte sequences that are the canonical encoding of
/// some record: a 4-byte length prefix that accounts for all but 8 of the
/// buffer's bytes, with the text region valid UTF-8.
pub open spec fn spec_decodable(b: Seq<u8>) -> bool {
    &&& b.len() >= 4
    &&& b.len() == 8 + spec_u32_from_le_bytes(b.subrange(0, 4))
    &&& valid_utf8(b.subrange(4, b.len() - 4))
}

/// Relies on `alloc::string::String::from_utf8`: it returns `Ok` exactly on
/// valid UTF-8 input, and the returned string is backed by exactly the input
/// bytes.
#[verifier::external_body]
fn string_from_utf8(bytes: Vec<u8>) -> (r: Option<String>)
    ensures
        r is Some <==> valid_utf8(bytes@),
        r matches Some(s) ==> encode_utf8(s@) == bytes@,
{
    match String::from_utf8(bytes) {
        Ok(s) => Some(s),
        Err(_) => None,
    }
}

/// Produce the canonical encoding of an encodable record.
pub fn encode(record: &Record) -> (out: Vec<u8>)
    requires
        record.encodable(),
    ensures
        out@ == record.spec_encoding(),
{
    let type_bytes: &[u8] = record.asset_type.as_str().as_bytes();
    let mut out = u32_to_le_bytes(type_bytes.len() as u32);
    let mut payload = slice_to_vec(type_bytes);
    out.append(&mut payload);
    let mut trailer = u32_to_le_bytes(record.asset_size);
    out.append(&mut trailer);
    proof {
        assert(out@ =~= record.spec_encoding());
    }
    out
}

/// Encode a record, reporting `EncodingFailed` for the records that have no
/// canonical encoding instead of demanding encodability up front.
pub fn try_encode(record: &Record) -> (r: Result<Vec<u8>, RecordError>)
    ensures
        r is Ok <==> record.encodable(),
        r matches Ok(out) ==> out@ == record.spec_encoding(),
        r is Err ==> r == Err::<Vec<u8>, RecordError>(RecordError::EncodingFailed),
{
    let type_bytes: &[u8] = record.asset_type.as_str().as_bytes();
    if type_bytes.len() <= u32::MAX as usize {
        Ok(encode(record))
    } else {
        Err(RecordError::EncodingFailed)
    }
}

/// Recover a record from its canonical encoding. Fails with
/// `MalformedRecord` on exactly the buffers that are not the canonical
/// encoding of any record: a missing or short length prefix, a text length
/// that disagrees with the buffer, a missing integer trailer, or a text
/// region that is not valid UTF-8.
pub fn decode(bytes: &[u8]) -> (r: Result<Record, RecordError>)
    ensures
        r is Ok <==> spec_decodable(bytes@),
        r matches Ok(record) ==> {
            &&& record.encodable()
            &&& record.spec_encoding() == bytes@
            &&& record.asset_type@ == decode_utf8(bytes@.subrange(4, bytes@.len() - 4))
            &&& record.asset_size == spec_u32_from_le_bytes(
                bytes@.subrange(bytes@.len() - 4, bytes@.len() as int),
            )
        },
        r is Err ==> r == Err::<Record, RecordError>(RecordError::MalformedRecord),
{
    proof {
        lemma_auto_spec_u32_to_from_le_bytes();
    }
    if bytes.len() < 8 {
        return Err(RecordError::MalformedRecord);
    }
    let declared: u32 = u32_from_le_bytes(slice_subrange(bytes, 0, 4));
    if bytes.len() - 8 != declared as usize {
        return Err(RecordError::MalformedRecord);
    }
    let payload = slice_to_vec(slice_subrange(bytes, 4, bytes.len() - 4));
    let asset_type = match string_from_utf8(payload) {
        Some(s) => s,
        None => {
            return Err(RecordError::MalformedRecord);
        },
    };
    let asset_size = u32_from_le_bytes(slice_subrange(bytes, bytes.len() - 4, bytes.len()));
    let record = Record { asset_type, asset_size };
    proof {
        encode_utf8_decode_utf8(record.asset_type@);
        assert(record.spec_encoding() =~= bytes@);
    }
    Ok(record)
}

/// Round trip: the canonical encoding of an encodable record is decodable,
/// and no two records with different field values share an encoding, so
/// decoding an encoded record recovers exactly the record's fields.
pub proof fn lemma_round_trip(r1: Record, r2: Record)
    requires
        r1.encodable(),
        r2.encodable(),
        r2.spec_encoding() == r1.spec_encoding(),
    ensures
        spec_decodable(r1.spec_encoding()),
        r2.asset_type@ == r1.asset_type@,
        r2.asset_size == r1.asset_size,
{
    lemma_auto_spec_u32_to_from_le_bytes();
    let enc = r1.spec_encoding();
    let tb1 = r1.spec_type_bytes();
    let tb2 = r2.spec_type_bytes();
    encode_utf8_valid_utf8(r1.asset_type@);
    assert(enc.subrange(0, 4) =~= spec_u32_to_le_bytes(tb1.len() as u32));
    assert(enc.subrange(4, enc.len() - 4) =~= tb1);
    assert(spec_decodable(enc));
    assert(r2.spec_encoding().subrange(0, 4) =~= spec_u32_to_le_bytes(tb2.len() as u32));
    assert(tb1.len() == tb2.len());
    assert(tb2 =~= r2.spec_encoding().subrange(4, enc.len() - 4));
    encode_utf8_decode_utf8(r1.asset_type@);
    encode_utf8_decode_utf8(r2.asset_type@);
    assert(enc.subrange(enc.len() - 4, enc.len() as int) =~= spec_u32_to_le_bytes(r1.asset_size));
    assert(r2.spec_encoding().subrange(enc.len() - 4, enc.len() as int) =~= spec_u32_to_le_bytes(
        r2.asset_size,
    ));
}

/// Determinism: the canonical encoding depends on the record's field values
/// alone, so encoding equal records always yields byte-identical output.
pub proof fn lemma_encoding_deterministic(r1: Record, r2: Record)
    requires
        r1.asset_type@ == r2.asset_type@,
        r1.asset_size == r2.asset_size,
    ensures
        r1.spec_encoding() == r2.spec_encoding(),
{
}

/// Boundary: a buffer too short to carry even an empty record's encoding
/// (length prefix plus integer trailer) is never decodable.
pub proof fn lemma_short_buffer_not_decodable(b: Seq<u8>)
    requires
        b.len() < 8,
    ensures
        !spec_decodable(b),
{
}

} // verus!
