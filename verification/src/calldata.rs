//! Layout of ABI-encoded call data: the method selector and the caller address
//! embedded in the first argument word.

use crate::address::Address;
use vstd::prelude::*;

verus! {

/// Number of leading bytes of call data that identify the invoked method.
pub const SELECTOR_LEN: usize = 4;

/// Offset at which the address inside the first argument word starts. The bytes
/// between the selector and this offset are the word's left padding.
pub const USER_START: usize = 16;

/// Offset at which the first argument word ends.
pub const USER_END: usize = 36;

/// A contract call as the policy engine sees it.
#[derive(Debug, Clone)]
pub struct CallRequest {
    /// The called contract; absent for a contract creation.
    pub to: Option<Address>,
    /// The ABI-encoded payload, if any.
    pub data: Option<Vec<u8>>,
}

impl CallRequest {
    /// Builds a call request.
    pub fn new(to: Option<Address>, data: Option<Vec<u8>>) -> (req: CallRequest)
        ensures
            req.to == to,
            req.data == data,
    {
        CallRequest { to, data }
    }

    /// The bytes of the called address, if there is one.
    pub open spec fn target(&self) -> Option<Seq<u8>> {
        match self.to {
            Some(address) => Some(address@),
            None => None,
        }
    }

    /// The bytes of the payload, if there is one.
    pub open spec fn payload(&self) -> Option<Seq<u8>> {
        match self.data {
            Some(bytes) => Some(bytes@),
            None => None,
        }
    }
}

/// The lowercase hexadecimal digit that stands for `nibble`, for `nibble < 16`.
pub open spec fn hex_digit(nibble: u8) -> char {
    if nibble < 10 {
        (nibble + 48) as char
    } else {
        (nibble + 87) as char
    }
}

/// The lowercase hexadecimal rendering of `bytes`: two digits per byte, the
/// high nibble first.
pub open spec fn hex_lower(bytes: Seq<u8>) -> Seq<char> {
    Seq::new(
        2 * bytes.len(),
        |i: int|
            if i % 2 == 0 {
                hex_digit(bytes[i / 2] / 16)
            } else {
                hex_digit(bytes[i / 2] % 16)
            },
    )
}

/// Calls `hex::encode`, which renders every input byte as two lowercase
/// hexadecimal digits, high nibble first, and nothing else.
#[verifier::external_body]
fn hex_encode(data: &[u8]) -> (text: String)
    ensures
        text@ == hex_lower(data@),
{
    hex::encode(data)
}

/// The selector of a call: the hexadecimal rendering of the first four bytes of
/// its data, or nothing when there are fewer than four.
pub open spec fn selector_of(data: Option<Seq<u8>>) -> Option<Seq<char>> {
    match data {
        Some(bytes) if bytes.len() >= SELECTOR_LEN => Some(
            hex_lower(bytes.subrange(0, SELECTOR_LEN as int)),
        ),
        _ => None,
    }
}

/// Whether the left padding of the first argument word is all zero.
pub open spec fn padding_is_zero(bytes: Seq<u8>) -> bool {
    forall|i: int| SELECTOR_LEN <= i < USER_START ==> bytes[i] == 0
}

/// The address embedded in the first argument word of call data: the last
/// twenty bytes of the word at offset four, provided that the data reaches the
/// end of that word and the word's twelve padding bytes are zero.
pub open spec fn embedded_user(data: Option<Seq<u8>>) -> Option<Seq<u8>> {
    match data {
        Some(bytes) if bytes.len() >= USER_END && padding_is_zero(bytes) => Some(
            bytes.subrange(USER_START as int, USER_END as int),
        ),
        _ => None,
    }
}

/// Computes the selector of a call.
pub fn get_selector(req: &CallRequest) -> (selector: Option<String>)
    ensures
        selector is Some <==> selector_of(req.payload()) is Some,
        selector matches Some(text) ==> selector_of(req.payload()) == Some(text@),
        selector is Some <==> (req.data matches Some(bytes) && bytes@.len() >= SELECTOR_LEN),
{
    match &req.data {
        Some(bytes) => {
            if bytes.len() >= SELECTOR_LEN {
                let head = vstd::slice::slice_subrange(bytes.as_slice(), 0, SELECTOR_LEN);
                Some(hex_encode(head))
            } else {
                None
            }
        },
        None => None,
    }
}

/// Extracts the caller address embedded in the first argument of a call.
pub fn get_first_user(req: &CallRequest) -> (user: Option<Address>)
    ensures
        user is Some <==> embedded_user(req.payload()) is Some,
        user matches Some(address) ==> embedded_user(req.payload()) == Some(address@),
{
    match &req.data {
        Some(bytes) => {
            if bytes.len() < USER_END {
                return None;
            }
            let mut i: usize = SELECTOR_LEN;
            while i < USER_START
                invariant
                    req.data == Some(*bytes),
                    SELECTOR_LEN <= i <= USER_START,
                    bytes@.len() >= USER_END,
                    forall|j: int| SELECTOR_LEN <= j < i ==> bytes@[j] == 0,
                decreases USER_START - i,
            {
                if bytes[i] != 0 {
                    return None;
                }
                i += 1;
            }
            let word = vstd::slice::slice_subrange(bytes.as_slice(), USER_START, USER_END);
            Some(Address::from_slice(word))
        },
        None => None,
    }
}

} // verus!
