//! Text as the endpoint sees it: payload bytes decoded as UTF-8, and comparison of
//! decoded text with the reserved rollback payload.
use vstd::prelude::*;
use vstd::utf8::*;

verus! {

/// The payload that announces a rollback.
pub const ROLLBACK_SENTINEL: &'static str = "ExecuteRollback";

/// The description that `std::str::from_utf8` gives of its failure on `bytes`.
///
/// It is only meaningful for bytes that are not valid UTF-8.
pub uninterp spec fn utf8_failure_text(bytes: Seq<u8>) -> Seq<char>;

/// What decoding `bytes` as UTF-8 yields: the text, or the description of the failure.
pub open spec fn decoded(bytes: Seq<u8>) -> Result<Seq<char>, Seq<char>> {
    if valid_utf8(bytes) {
        Ok(decode_utf8(bytes))
    } else {
        Err(utf8_failure_text(bytes))
    }
}

/// Calls `std::str::from_utf8` and renders its error with `to_string`.
///
/// Trusted: the call succeeds exactly on valid UTF-8, the text it returns is the
/// decoding of `data`, and on failure the rendered error is a function of `data`
/// alone, named by [`utf8_failure_text`].
#[verifier::external_body]
pub(crate) fn decode_utf8_text(data: &[u8]) -> (r: Result<&str, String>)
    ensures
        r is Ok <==> valid_utf8(data@),
        r matches Ok(text) ==> text@ == decode_utf8(data@),
        r matches Err(why) ==> why@ == utf8_failure_text(data@),
{
    std::str::from_utf8(data).map_err(|e| e.to_string())
}

/// Whether two pieces of text hold the same characters.
pub fn same_text(a: &str, b: &str) -> (same: bool)
    ensures
        same == (a@ == b@),
{
    a.to_owned() == b.to_owned()
}

/// Whether `text` is exactly the reserved rollback payload.
pub fn is_rollback_sentinel(text: &str) -> (hit: bool)
    ensures
        hit == (text@ == ROLLBACK_SENTINEL@),
{
    same_text(text, ROLLBACK_SENTINEL)
}

} // verus!
