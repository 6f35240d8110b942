//! Trusted boundary around two std text operations that vstd does not
//! specify: Unicode lowercasing and UTF-8 decoding.

use vstd::prelude::*;

verus! {

/// The Unicode lowercase form of a string, as `str::to_lowercase` computes
/// it.
pub uninterp spec fn lower_of(s: Seq<char>) -> Seq<char>;

/// Relies on `str::to_lowercase`: the result depends on the characters
/// alone.
#[verifier::external_body]
pub(crate) fn lowercase(s: &str) -> (r: String)
    ensures
        r@ == lower_of(s@),
{
    s.to_lowercase()
}

/// The text a byte sequence decodes to: its UTF-8 reading when the bytes are
/// valid UTF-8, and the empty string otherwise.
pub uninterp spec fn utf8_or_empty(b: Seq<u8>) -> Seq<char>;

/// Relies on `str::from_utf8`: decoding succeeds or fails on the bytes
/// alone, and an invalid body is read as empty.
#[verifier::external_body]
pub(crate) fn body_text(b: &[u8]) -> (r: String)
    ensures
        r@ == utf8_or_empty(b@),
{
    std::str::from_utf8(b).unwrap_or("").to_owned()
}

} // verus!
