use crate::record::Transaction;
use crate::record::TransactionView;
use vstd::prelude::*;

verus! {

/// The bytes that `bincode::serialize` gives for a record's seven fields, taken
/// in declaration order, the three numbers as decimal text; `None` where it
/// reports an error.
pub uninterp spec fn bincode_record(
    from_user: Seq<char>,
    to_user: Seq<char>,
    amount: u128,
    timestamp: u64,
    from_chain: Seq<char>,
    to_chain: Seq<char>,
    nonce: u128,
) -> Option<Seq<u8>>;

/// The contents of an optional byte buffer.
pub open spec fn bytes_view(bytes: Option<Vec<u8>>) -> Option<Seq<u8>> {
    match bytes {
        Some(b) => Some(b@),
        None => None,
    }
}

/// The canonical serialization of a record, the input of its hash.
pub open spec fn canonical_bytes(record: TransactionView) -> Option<Seq<u8>> {
    bincode_record(
        record.from_user,
        record.to_user,
        record.amount,
        record.timestamp,
        record.from_chain,
        record.to_chain,
        record.nonce,
    )
}

/// Calls `bincode::serialize` on the tuple of the record's fields, with
/// `amount`, `timestamp` and `nonce` wrapped in `near_sdk`'s `U128` and `U64`,
/// which serialize as decimal strings.
///
/// Unproved: that the outcome is the one named by [`bincode_record`], that is,
/// that it depends on the field values alone.
#[verifier::external_body]
pub(crate) fn serialize_record(record: &Transaction) -> (bytes: Option<Vec<u8>>)
    ensures
        bytes_view(bytes) == bincode_record(
            record.from_user@,
            record.to_user@,
            record.amount,
            record.timestamp,
            record.from_chain@,
            record.to_chain@,
            record.nonce,
        ),
{
    bincode::serialize(
        &(
            &record.from_user,
            &record.to_user,
            near_sdk::json_types::U128(record.amount),
            near_sdk::json_types::U64(record.timestamp),
            &record.from_chain,
            &record.to_chain,
            near_sdk::json_types::U128(record.nonce),
        ),
    ).ok()
}

/// The lower-case hexadecimal digit of a value below sixteen.
pub open spec fn hex_digit(nibble: int) -> char {
    seq!['0', '1', '2', '3', '4', '5', '6', '7', '8', '9', 'a', 'b', 'c', 'd', 'e', 'f'][nibble]
}

/// Lower-case hexadecimal text of a byte string: two digits per byte, the high
/// half first.
pub open spec fn hex_text(data: Seq<u8>) -> Seq<char> {
    Seq::new(
        2 * data.len(),
        |i: int|
            if i % 2 == 0 {
                hex_digit(data[i / 2] as int / 16)
            } else {
                hex_digit(data[i / 2] as int % 16)
            },
    )
}

/// Calls `hex::encode`.
///
/// Unproved: that the text is [`hex_text`] of the bytes.
#[verifier::external_body]
pub(crate) fn hex_encode(data: &Vec<u8>) -> (text: String)
    ensures
        text@ == hex_text(data@),
{
    hex::encode(data)
}

} // verus!
