use vstd::prelude::*;

verus! {

/// The standard, padded base64 encoding of the UTF-8 bytes of a text.
pub uninterp spec fn base64_of(text: Seq<char>) -> Seq<char>;

/// The hyphenated, lower-case text form of a 128-bit identifier.
pub uninterp spec fn uuid_text(value: u128) -> Seq<char>;

/// Relies on `base64::encode`: standard alphabet with padding, four output
/// characters for each started group of three input bytes, so the empty
/// input gives the empty output.
#[verifier::external_body]
pub(crate) fn base64_encode(text: &str) -> (r: String)
    ensures
        r@ == base64_of(text@),
        text@.len() == 0 ==> r@.len() == 0,
{
    base64::encode(text.as_bytes())
}

/// Relies on `uuid::Uuid::from_u128` and the `Display` of `uuid::Uuid`:
/// 32 lower-case hexadecimal digits in groups of 8-4-4-4-12 separated by
/// hyphens.
#[verifier::external_body]
pub(crate) fn uuid_to_text(value: u128) -> (r: String)
    ensures
        r@ == uuid_text(value),
        r@.len() == 36,
{
    uuid::Uuid::from_u128(value).to_string()
}

} // verus!
