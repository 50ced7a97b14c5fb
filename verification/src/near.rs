use crate::codec::bytes_view;
use std::str::FromStr;
use vstd::prelude::*;
use vstd::utf8::encode_utf8;

verus! {

/// Whether a byte separates the parts of an account identifier: `-`, `_` or
/// `.`.
pub open spec fn is_separator(byte: u8) -> bool {
    byte == 0x2d || byte == 0x5f || byte == 0x2e
}

/// Whether a byte is a lower-case letter or a digit.
pub open spec fn is_letter_or_digit(byte: u8) -> bool {
    (0x61 <= byte <= 0x7a) || (0x30 <= byte <= 0x39)
}

/// The rule for account identifiers: 2 to 64 bytes, each a lower-case letter,
/// a digit or a separator; no separator at either end, and no two separators
/// in a row.
pub open spec fn account_id_rule(id: Seq<u8>) -> bool {
    &&& 2 <= id.len() <= 64
    &&& forall|i: int|
        0 <= i < id.len() ==> is_letter_or_digit(#[trigger] id[i]) || is_separator(id[i])
    &&& !is_separator(id[0])
    &&& !is_separator(id[id.len() - 1])
    &&& forall|i: int|
        0 <= i < id.len() - 1 ==> !(is_separator(#[trigger] id[i]) && is_separator(id[i + 1]))
}

/// Whether a text is an account identifier.
pub open spec fn account_id_valid(id: Seq<char>) -> bool {
    account_id_rule(encode_utf8(id))
}

/// Calls `near_sdk::env::is_valid_account_id` on the bytes of the text.
///
/// Unproved: that it accepts exactly the texts whose bytes follow
/// [`account_id_rule`].
#[verifier::external_body]
pub(crate) fn is_valid_account_id(id: &String) -> (valid: bool)
    ensures
        valid == account_id_rule(encode_utf8(id@)),
{
    near_sdk::env::is_valid_account_id(id.as_bytes())
}

/// The bytes of the `near_sdk::PublicKey` that a text parses to: one byte for
/// the curve, then the key; `None` where the text does not parse.
pub uninterp spec fn near_public_key(text: Seq<char>) -> Option<Seq<u8>>;

/// Parses the text with `from_str` of `near_sdk::PublicKey` and hands out the
/// key's bytes.
///
/// Unproved: that the outcome is the one named by [`near_public_key`], that is,
/// that it depends on the text alone.
#[verifier::external_body]
pub(crate) fn parse_public_key(text: &String) -> (key: Option<Vec<u8>>)
    ensures
        bytes_view(key) == near_public_key(text@),
{
    match near_sdk::PublicKey::from_str(text.as_str()) {
        Ok(key) => Some(key.into_bytes()),
        Err(_) => None,
    }
}

} // verus!
