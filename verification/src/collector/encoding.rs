//! Text encodings that the exporters take from outside: base64 and upper
//! case.

use vstd::prelude::*;

verus! {

/// The standard base64 text of a byte string, with padding, as
/// `base64::encode` writes it.
pub uninterp spec fn base64_standard(data: Seq<u8>) -> Seq<char>;

/// The upper-case form of a text, as `str::to_uppercase` gives it.
pub uninterp spec fn uppercase(text: Seq<char>) -> Seq<char>;

/// Calls `base64::encode`. The contract names the text by the bytes.
#[verifier::external_body]
pub(crate) fn base64_text(data: &[u8]) -> (s: String)
    ensures
        s@ == base64_standard(data@),
{
    base64::encode(data)
}

/// Calls `str::to_uppercase`. The contract names the result by the text.
#[verifier::external_body]
pub(crate) fn to_upper(text: &str) -> (s: String)
    ensures
        s@ == uppercase(text@),
{
    text.to_uppercase()
}

} // verus!
