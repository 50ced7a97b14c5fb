use vstd::prelude::*;
use vstd::utf8::decode_utf8;
use vstd::utf8::encode_utf8;
use vstd::utf8::encode_utf8_decode_utf8;
use vstd::utf8::is_char_boundary;

verus! {

/// Length in bytes of the destination address that opens a deposit message.
pub const ETH_ADDRESS_LENGTH: usize = 42;

/// Whether a deposit message has the form of a destination address followed by
/// a chain identifier: it is longer than the address, and the address ends
/// where a character ends.
pub open spec fn message_well_formed(message: Seq<char>) -> bool {
    &&& encode_utf8(message).len() > ETH_ADDRESS_LENGTH
    &&& is_char_boundary(encode_utf8(message), ETH_ADDRESS_LENGTH as int)
}

/// The destination address of a deposit message: its first 42 bytes.
pub open spec fn message_address(message: Seq<char>) -> Seq<char> {
    decode_utf8(encode_utf8(message).subrange(0, ETH_ADDRESS_LENGTH as int))
}

/// The destination chain of a deposit message: what follows the address.
pub open spec fn message_chain(message: Seq<char>) -> Seq<char> {
    decode_utf8(
        encode_utf8(message).subrange(
            ETH_ADDRESS_LENGTH as int,
            encode_utf8(message).len() as int,
        ),
    )
}

/// Splits a deposit message into the destination address and the destination
/// chain. `None` for a message that does not have that form.
pub fn split_message(message: &String) -> (parts: Option<(String, String)>)
    ensures
        match parts {
            Some((address, chain)) => {
                &&& message_well_formed(message@)
                &&& address@ == message_address(message@)
                &&& chain@ == message_chain(message@)
            },
            None => !message_well_formed(message@),
        },
{
    let text = message.as_str();
    if text.as_bytes().len() <= ETH_ADDRESS_LENGTH || !text.is_char_boundary(ETH_ADDRESS_LENGTH) {
        return None;
    }
    let (address, chain) = text.split_at(ETH_ADDRESS_LENGTH);
    proof {
        encode_utf8_decode_utf8(address@);
        encode_utf8_decode_utf8(chain@);
    }
    Some((address.to_owned(), chain.to_owned()))
}

} // verus!
