//! Ledger addresses as plain 32-byte values, with base58 text conversion.

use core::str::FromStr;
use vstd::prelude::*;

verus! {

/// A 32-byte ledger address (a public key or a program-derived address).
#[derive(Clone, Copy)]
pub struct Addr {
    pub bytes: [u8; 32],
}

impl View for Addr {
    type V = Seq<u8>;

    open spec fn view(&self) -> Seq<u8> {
        self.bytes@
    }
}

impl Addr {
    pub fn new(bytes: [u8; 32]) -> (r: Addr)
        ensures
            r@ == bytes@,
    {
        Addr { bytes }
    }

    /// Byte-for-byte equality of two addresses.
    pub fn eq_addr(&self, other: &Addr) -> (r: bool)
        ensures
            r == (self@ == other@),
    {
        let mut i: usize = 0;
        while i < 32
            invariant
                i <= 32,
                forall|j: int| 0 <= j < i ==> self@[j] == other@[j],
            decreases 32 - i,
        {
            if self.bytes[i] != other.bytes[i] {
                return false;
            }
            i += 1;
        }
        proof {
            assert(self@ =~= other@);
        }
        true
    }
}

/// What base58 decoding yields on a string: 32 key bytes, or nothing
/// when the string is not the base58 form of a 32-byte value.
pub uninterp spec fn base58_decode(s: Seq<char>) -> Option<Seq<u8>>;

/// The base58 rendering of 32 key bytes.
pub uninterp spec fn base58_encode(b: Seq<u8>) -> Seq<char>;

/// Relies on `solana_sdk::pubkey::Pubkey::from_str`: base58 decoding of a
/// 32-byte public key, a function of the string alone.
#[verifier::external_body]
pub(crate) fn parse_base58(s: &str) -> (r: Option<Addr>)
    ensures
        match r {
            Some(a) => base58_decode(s@) == Some(a@),
            None => base58_decode(s@) is None,
        },
{
    match solana_sdk::pubkey::Pubkey::from_str(s) {
        Ok(p) => Some(Addr { bytes: p.to_bytes() }),
        Err(_) => None,
    }
}

/// Relies on the `Display` impl of `solana_sdk::pubkey::Pubkey`: the
/// base58 rendering of the key bytes, a function of the bytes alone.
#[verifier::external_body]
pub(crate) fn to_base58(a: &Addr) -> (r: String)
    ensures
        r@ == base58_encode(a@),
{
    solana_sdk::pubkey::Pubkey::new_from_array(a.bytes).to_string()
}

} // verus!
