//! Twenty-byte contract and account addresses.

use std::str::FromStr;
use vstd::prelude::*;

verus! {

/// Number of bytes in an address.
pub const ADDRESS_LEN: usize = 20;

/// A contract or account address: twenty bytes, compared byte by byte.
#[derive(Clone, Copy, Debug, PartialEq, Eq, Hash)]
pub struct Address(pub [u8; 20]);

impl View for Address {
    type V = Seq<u8>;

    open spec fn view(&self) -> Seq<u8> {
        self.0@
    }
}

/// The address that a piece of text denotes, if it denotes one: the answer of
/// the parser behind [`Address::parse`], which reads forty hexadecimal digits
/// with an optional `0x` in front.
pub uninterp spec fn address_from_text(text: Seq<char>) -> Option<Seq<u8>>;

/// Calls `<ethereum_types::Address as FromStr>::from_str` and copies the
/// twenty bytes of a successful result. The contract only names the outcome:
/// it is a function of the text alone.
#[verifier::external_body]
fn parse_h160(text: &str) -> (parsed: Option<Address>)
    ensures
        parsed matches Some(address) ==> address_from_text(text@) == Some(address@),
        parsed is None ==> address_from_text(text@) is None,
{
    ethereum_types::Address::from_str(text).ok().map(|hash| Address(hash.0))
}

impl Address {
    /// Every address has exactly twenty bytes.
    pub proof fn lemma_len(self)
        ensures
            self@.len() == ADDRESS_LEN,
    {
        vstd::array::array_len_matches_n(&self.0);
    }

    /// Two addresses with the same bytes are the same address.
    pub proof fn lemma_view_injective(self, other: Address)
        requires
            self@ == other@,
        ensures
            self == other,
    {
        vstd::array::array_len_matches_n(&self.0);
        vstd::array::array_len_matches_n(&other.0);
        vstd::array::axiom_array_ext_equal(self.0, other.0);
    }

    /// Builds an address from exactly twenty bytes.
    pub fn from_slice(src: &[u8]) -> (address: Address)
        requires
            src@.len() == ADDRESS_LEN,
        ensures
            address@ == src@,
    {
        let mut bytes = [0u8; 20];
        let mut i: usize = 0;
        proof {
            vstd::array::array_len_matches_n(&bytes);
        }
        while i < ADDRESS_LEN
            invariant
                i <= ADDRESS_LEN,
                src@.len() == ADDRESS_LEN,
                bytes@.len() == ADDRESS_LEN,
                forall|j: int| 0 <= j < i ==> bytes@[j] == src@[j],
            decreases ADDRESS_LEN - i,
        {
            bytes[i] = src[i];
            i += 1;
        }
        Address(bytes)
    }

    /// Reads an address from text. Succeeds exactly when the text denotes an
    /// address, and then returns that address.
    pub fn parse(text: &str) -> (parsed: Option<Address>)
        ensures
            parsed matches Some(address) ==> address_from_text(text@) == Some(address@),
            parsed is None ==> address_from_text(text@) is None,
    {
        parse_h160(text)
    }

    /// Whether two addresses have the same bytes.
    pub fn same_as(&self, other: &Address) -> (same: bool)
        ensures
            same == (self@ == other@),
    {
        proof {
            vstd::array::array_len_matches_n(&self.0);
            vstd::array::array_len_matches_n(&other.0);
        }
        let mut i: usize = 0;
        while i < ADDRESS_LEN
            invariant
                i <= ADDRESS_LEN,
                self.0@.len() == ADDRESS_LEN,
                other.0@.len() == ADDRESS_LEN,
                forall|j: int| 0 <= j < i ==> self.0@[j] == other.0@[j],
            decreases ADDRESS_LEN - i,
        {
            if self.0[i] != other.0[i] {
                return false;
            }
            i += 1;
        }
        assert(self.0@ =~= other.0@);
        true
    }
}

} // verus!
