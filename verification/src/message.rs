//! Byte-exact encoding of the vault-transfer transaction message, in
//! the wire form the governance program deserializes: a fixed header,
//! the account keys, and one compiled token-transfer instruction whose
//! amount is encoded little-endian at fixed width.
//!
//! The message moves `amount` of the treasury token from the vault's
//! token account to the receiver's, with the vault as authority. Its
//! accounts, in order: the vault (writable signer), the source token
//! account, the destination token account (both writable), and the
//! token program (readonly).

use vstd::prelude::*;

use crate::addr::Addr;
use crate::tokens::token_program_seq;

verus! {

/// The eight bytes of `n`, least significant first.
pub open spec fn le64(n: u64) -> Seq<u8> {
    seq![
        (n & 0xff) as u8,
        ((n >> 8) & 0xff) as u8,
        ((n >> 16) & 0xff) as u8,
        ((n >> 24) & 0xff) as u8,
        ((n >> 32) & 0xff) as u8,
        ((n >> 40) & 0xff) as u8,
        ((n >> 48) & 0xff) as u8,
        ((n >> 56) & 0xff) as u8,
    ]
}

/// The compiled instruction's payload: the token-transfer tag followed
/// by the amount, little-endian at fixed width.
pub open spec fn transfer_data(amount: u64) -> Seq<u8> {
    seq![3u8] + le64(amount)
}

/// The full wire message: one signer (the vault, writable), two
/// writable non-signers (source and destination token accounts), four
/// account keys, and one compiled instruction against the token
/// program (key index 3) over accounts [source, destination, vault,
/// vault] (indexes 1, 2, 0, 0), with a 9-byte payload and no address
/// table lookups (an empty lookup list closes the message).
pub open spec fn transfer_message_bytes(
    vault: Seq<u8>,
    source: Seq<u8>,
    dest: Seq<u8>,
    amount: u64,
) -> Seq<u8> {
    seq![1u8, 1u8, 2u8, 4u8] + vault + source + dest + token_program_seq()
        + seq![1u8, 3u8, 4u8, 1u8, 2u8, 0u8, 0u8, 9u8, 0u8] + transfer_data(amount) + seq![0u8]
}

/// Appends the 32 bytes of `a`.
pub fn push_addr_bytes(out: &mut Vec<u8>, a: &Addr)
    ensures
        final(out)@ == old(out)@ + a@,
{
    let mut i: usize = 0;
    while i < 32
        invariant
            i <= 32,
            out@ == old(out)@ + a@.take(i as int),
        decreases 32 - i,
    {
        out.push(a.bytes[i]);
        proof {
            assert(out@ =~= old(out)@ + a@.take(i + 1));
        }
        i += 1;
    }
    proof {
        assert(a@.take(32) =~= a@);
    }
}

/// Appends `n` little-endian at fixed width.
pub fn push_le64_bytes(out: &mut Vec<u8>, n: u64)
    ensures
        final(out)@ == old(out)@ + le64(n),
{
    proof {
        assert((n & 0xff) < 256 && ((n >> 8) & 0xff) < 256 && ((n >> 16) & 0xff) < 256 && ((n
            >> 24) & 0xff) < 256 && ((n >> 32) & 0xff) < 256 && ((n >> 40) & 0xff) < 256 && ((n
            >> 48) & 0xff) < 256 && ((n >> 56) & 0xff) < 256) by (bit_vector);
    }
    out.push((n & 0xff) as u8);
    out.push(((n >> 8) & 0xff) as u8);
    out.push(((n >> 16) & 0xff) as u8);
    out.push(((n >> 24) & 0xff) as u8);
    out.push(((n >> 32) & 0xff) as u8);
    out.push(((n >> 40) & 0xff) as u8);
    out.push(((n >> 48) & 0xff) as u8);
    out.push(((n >> 56) & 0xff) as u8);
    proof {
        assert(out@ =~= old(out)@ + le64(n));
    }
}

/// Encodes the vault-transfer message for the given parties and
/// amount, byte for byte as `transfer_message_bytes` states it.
pub fn encode_transfer_message(vault: &Addr, source: &Addr, dest: &Addr, amount: u64) -> (r: Vec<
    u8>)
    ensures
        r@ == transfer_message_bytes(vault@, source@, dest@, amount),
{
    let mut out: Vec<u8> = Vec::new();
    out.push(1);
    out.push(1);
    out.push(2);
    out.push(4);
    push_addr_bytes(&mut out, vault);
    push_addr_bytes(&mut out, source);
    push_addr_bytes(&mut out, dest);
    let tp = crate::tokens::token_program();
    push_addr_bytes(&mut out, &tp);
    out.push(1);
    out.push(3);
    out.push(4);
    out.push(1);
    out.push(2);
    out.push(0);
    out.push(0);
    out.push(9);
    out.push(0);
    out.push(3);
    push_le64_bytes(&mut out, amount);
    out.push(0);
    proof {
        assert(out@ =~= transfer_message_bytes(vault@, source@, dest@, amount));
    }
    out
}

} // verus!
