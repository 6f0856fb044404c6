//! The boundary to the JSON crates. A JSON document is carried as a
//! `serde_json::Value`; what is known of one here is what the items of this
//! file state, none of which is proved.

use serde_json::Value;
use vstd::prelude::*;

verus! {

/// `serde_json::Value`, a JSON document. Nothing of its inside is visible to
/// the proofs.
#[verifier::external_type_specification]
#[verifier::external_body]
pub struct ExValue(serde_json::Value);

/// Whether `assert_json_diff` finds nothing to report when `actual` is held
/// against `expected` in its inclusive mode.
pub uninterp spec fn inclusive_match(actual: Value, expected: Value) -> bool;

/// Whether a document includes a pattern: the two are equal, or the inclusive
/// comparison of the document with the pattern reports no difference.
pub open spec fn json_includes(actual: Value, pattern: Value) -> bool {
    actual == pattern || inclusive_match(actual, pattern)
}

/// The document that `serde_json` reads from `bytes`, if they are JSON text.
pub uninterp spec fn parsed_json(bytes: Seq<u8>) -> Option<Value>;

/// The JSON text that `serde_json` writes for a document, if it can write it.
pub uninterp spec fn written_json(document: Value) -> Option<Seq<u8>>;

/// `assert_json_diff::assert_json_matches_no_panic` with
/// `CompareMode::Inclusive`: claims that its verdict is a function of the two
/// documents, and that it reports no difference when they are equal (every
/// scalar is compared with `==`, and every index and key of the pattern is
/// then present in the document).
#[verifier::external_body]
pub(crate) fn includes(actual: &Value, pattern: &Value) -> (included: bool)
    ensures
        included == (*actual == *pattern || inclusive_match(*actual, *pattern)),
{
    assert_json_diff::assert_json_matches_no_panic(
        actual,
        pattern,
        assert_json_diff::Config::new(assert_json_diff::CompareMode::Inclusive),
    ).is_ok()
}

/// `serde_json::from_slice` at type `Value`: claims that what it reads is a
/// function of the bytes, with `None` standing for every error.
#[verifier::external_body]
pub(crate) fn parse(bytes: &Vec<u8>) -> (document: Option<Value>)
    ensures
        document == parsed_json(bytes@),
{
    serde_json::from_slice(bytes.as_slice()).ok()
}

/// `serde_json::to_vec` at type `Value`: claims that what it writes is a
/// function of the document, with `None` standing for every error.
#[verifier::external_body]
pub(crate) fn write(document: &Value) -> (text: Option<Vec<u8>>)
    ensures
        match text {
            Some(text) => written_json(*document) == Some(text@),
            None => written_json(*document) is None,
        },
{
    serde_json::to_vec(document).ok()
}

/// `Value::clone`: claims that the copy equals the document it was made of.
#[verifier::external_body]
pub(crate) fn duplicate(document: &Value) -> (copy: Value)
    ensures
        copy == *document,
{
    document.clone()
}

} // verus!
