//! Digests and identifiers.
use sha2::Digest;
use vstd::prelude::*;
use vstd::utf8::encode_utf8;
use crate::json::ToJson;
use crate::value::shown;
use crate::value::Text;
use crate::work::model::WorkError;
use crate::work::model::WorkResult;

verus! {

/// The SHA-256 digest of some bytes in lower-case hexadecimal.
pub uninterp spec fn sha256_hex(bytes: Seq<u8>) -> Text;

/// `sha2::Sha256::digest`, written out with `{:x}`: the text depends on the bytes alone.
#[verifier::external_body]
fn sha256_text(bytes: &[u8]) -> (res: String)
    ensures
        res@ == sha256_hex(bytes@),
{
    format!("{:x}", sha2::Sha256::digest(bytes))
}

/// The digest of some bytes.
pub fn bytes_digest(bytes: &[u8]) -> (res: String)
    ensures
        res@ == sha256_hex(bytes@),
{
    sha256_text(bytes)
}

/// The digest of a JSON text.
pub open spec fn digest_of(json: Text) -> Text {
    sha256_hex(encode_utf8(json))
}

/// The digest of a value's JSON text.
pub fn digest_text<T: ToJson + ?Sized>(value: &T) -> (res: String)
    ensures
        res@ == digest_of(T::json(value.deep_view())),
{
    sha256_text(value.to_json().as_str().as_bytes())
}

/// The digest by which two requests under one key are told apart.
pub fn payload_digest<T: ToJson + ?Sized>(value: &T) -> (res: WorkResult<String>)
    ensures
        shown(res) == Ok::<Text, WorkError>(digest_of(T::json(value.deep_view()))),
{
    Ok(digest_text(value))
}

/// Whether a text is a UUID in one of the forms that the `uuid` crate reads.
pub uninterp spec fn is_uuid(text: Text) -> bool;

/// `uuid::Uuid::parse_str`: whether it succeeds depends on the characters alone.
#[verifier::external_body]
pub(crate) fn uuid_text(text: &str) -> (res: bool)
    ensures
        res == is_uuid(text@),
{
    uuid::Uuid::parse_str(text).is_ok()
}

/// `uuid::Uuid::new_v4`, written in its hyphenated form: thirty-six characters that
/// `uuid::Uuid::parse_str` reads. Which identifier comes is left to chance.
#[verifier::external_body]
pub(crate) fn new_id() -> (res: String)
    ensures
        res@.len() == 36,
        is_uuid(res@),
{
    uuid::Uuid::new_v4().to_string()
}

/// `uuid::Uuid::new_v4` and `uuid::Uuid::into_bytes`: the sixteen bytes of an identifier, left to
/// chance but for the upper bits of the seventh and the ninth, which hold its version and its
/// variant.
#[verifier::external_body]
pub(crate) fn id_bytes() -> (res: [u8; 16])
    ensures
        res@[6] as int / 16 == 4,
        res@[8] as int / 64 == 2,
{
    uuid::Uuid::new_v4().into_bytes()
}

/// Identifiers for a request that makes several records.
pub(crate) fn new_ids(count: usize) -> (res: Vec<String>)
    ensures
        res.len() == count,
        forall|i: int| 0 <= i < count ==> is_uuid(#[trigger] res@[i]@),
{
    let mut res: Vec<String> = Vec::new();
    while res.len() < count
        invariant
            res.len() <= count,
            forall|i: int| 0 <= i < res.len() ==> is_uuid(#[trigger] res@[i]@),
        decreases count - res.len(),
    {
        res.push(new_id());
    }
    res
}

} // verus!
